//! The persisted data: characters, windowsets and the catalog that holds them.

use vstd::prelude::*;

verus! {

/// A character class. It labels a character and never changes what the
/// engine does.
#[derive(Clone, Copy, Debug, PartialEq, Eq, Structural)]
pub enum Breed {
    Ecaflip,
    Eniripsa,
    Iop,
    Cra,
    Feca,
    Sacrieur,
    Sadida,
    Osamodas,
    Enutrof,
    Sram,
    Xelor,
    Pandawa,
    Roublard,
    Zobal,
    Steamer,
    Eliotrope,
    Huppermage,
    Ouginak,
    Forgelance,
}

/// The number of the icon that the interface shows for each breed.
pub open spec fn css_id_of(b: Breed) -> i8 {
    match b {
        Breed::Ecaflip => 6,
        Breed::Eniripsa => 7,
        Breed::Iop => 8,
        Breed::Cra => 9,
        Breed::Feca => 1,
        Breed::Sacrieur => 11,
        Breed::Sadida => 10,
        Breed::Osamodas => 2,
        Breed::Enutrof => 3,
        Breed::Sram => 4,
        Breed::Xelor => 5,
        Breed::Pandawa => 12,
        Breed::Roublard => 13,
        Breed::Zobal => 14,
        Breed::Steamer => 15,
        Breed::Eliotrope => 16,
        Breed::Huppermage => 17,
        Breed::Ouginak => 18,
        Breed::Forgelance => 20,
    }
}

impl Breed {
    pub fn to_css_id(&self) -> (r: i8)
        ensures
            r == css_id_of(*self),
    {
        match self {
            Breed::Ecaflip => 6,
            Breed::Eniripsa => 7,
            Breed::Iop => 8,
            Breed::Cra => 9,
            Breed::Feca => 1,
            Breed::Sacrieur => 11,
            Breed::Sadida => 10,
            Breed::Osamodas => 2,
            Breed::Enutrof => 3,
            Breed::Sram => 4,
            Breed::Xelor => 5,
            Breed::Pandawa => 12,
            Breed::Roublard => 13,
            Breed::Zobal => 14,
            Breed::Steamer => 15,
            Breed::Eliotrope => 16,
            Breed::Huppermage => 17,
            Breed::Ouginak => 18,
            Breed::Forgelance => 20,
        }
    }
}

/// A character, known by the name that its window title starts with.
/// Two characters with the same name are the same character.
#[derive(Debug)]
pub struct Character {
    pub name: String,
    pub breed: Option<Breed>,
    pub enabled: bool,
}

impl Character {
    /// A character seen for the first time: enabled, with no breed.
    pub fn new(name: &str) -> (c: Character)
        ensures
            c.name@ == name@,
            c.breed is None,
            c.enabled,
    {
        Character { name: name.to_owned(), breed: None, enabled: true }
    }
}

/// What a character holds, as mathematical values.
pub ghost struct CharacterView {
    pub name: Seq<char>,
    pub breed: Option<Breed>,
    pub enabled: bool,
}

impl View for Character {
    type V = CharacterView;

    open spec fn view(&self) -> CharacterView {
        CharacterView { name: self.name@, breed: self.breed, enabled: self.enabled }
    }
}

/// The character that a name denotes the first time it is seen.
pub open spec fn fresh_character(name: Seq<char>) -> CharacterView {
    CharacterView { name, breed: None, enabled: true }
}

/// The views of a sequence of characters.
pub open spec fn characters_view(s: Seq<Character>) -> Seq<CharacterView> {
    s.map_values(|c: Character| c@)
}

impl Clone for Character {
    fn clone(&self) -> (r: Self)
        ensures
            r@ == self@,
    {
        Character { name: self.name.clone(), breed: self.breed, enabled: self.enabled }
    }
}

impl PartialEq for Character {
    fn eq(&self, other: &Character) -> (r: bool)
        ensures
            r == (self.name@ == other.name@),
    {
        self.name == other.name
    }
}

impl vstd::std_specs::cmp::PartialEqSpecImpl for Character {
    open spec fn obeys_eq_spec() -> bool {
        true
    }

    open spec fn eq_spec(&self, other: &Character) -> bool {
        self.name@ == other.name@
    }
}

/// A named windowset: its characters in dispatch order, the leader first.
#[derive(Debug)]
pub struct Group {
    pub name: String,
    pub characters: Vec<Character>,
}

/// Clones every character of `v`, keeping the order.
pub fn clone_characters(v: &Vec<Character>) -> (r: Vec<Character>)
    ensures
        r@.len() == v@.len(),
        characters_view(r@) == characters_view(v@),
{
    let mut r: Vec<Character> = Vec::new();
    for i in 0..v.len()
        invariant
            r@.len() == i,
            forall|k: int| 0 <= k < i ==> (#[trigger] r@[k])@ == v@[k]@,
    {
        r.push(v[i].clone());
    }
    assert(characters_view(r@) =~= characters_view(v@));
    r
}

/// What a windowset holds, as mathematical values.
pub ghost struct GroupView {
    pub name: Seq<char>,
    pub characters: Seq<CharacterView>,
}

impl View for Group {
    type V = GroupView;

    open spec fn view(&self) -> GroupView {
        GroupView { name: self.name@, characters: characters_view(self.characters@) }
    }
}

/// The views of a sequence of windowsets.
pub open spec fn groups_view(s: Seq<Group>) -> Seq<GroupView> {
    s.map_values(|g: Group| g@)
}

impl Clone for Group {
    fn clone(&self) -> (r: Self)
        ensures
            r@ == self@,
    {
        Group { name: self.name.clone(), characters: clone_characters(&self.characters) }
    }
}

/// Clones every windowset of `v`, keeping the order.
pub fn clone_groups(v: &Vec<Group>) -> (r: Vec<Group>)
    ensures
        r@.len() == v@.len(),
        groups_view(r@) == groups_view(v@),
{
    let mut r: Vec<Group> = Vec::new();
    for i in 0..v.len()
        invariant
            r@.len() == i,
            forall|k: int| 0 <= k < i ==> (#[trigger] r@[k])@ == v@[k]@,
    {
        r.push(v[i].clone());
    }
    assert(groups_view(r@) =~= groups_view(v@));
    r
}

/// The catalog: the windowsets in order, which of them is selected, and
/// every character ever seen as a live window.
#[derive(Debug)]
pub struct Database {
    pub groups: Vec<Group>,
    pub characters: Vec<Character>,
    pub current_group: usize,
}

/// What the catalog holds, as mathematical values.
pub ghost struct DatabaseView {
    pub groups: Seq<GroupView>,
    pub characters: Seq<CharacterView>,
    pub current_group: int,
}

impl View for Database {
    type V = DatabaseView;

    open spec fn view(&self) -> DatabaseView {
        DatabaseView {
            groups: groups_view(self.groups@),
            characters: characters_view(self.characters@),
            current_group: self.current_group as int,
        }
    }
}

impl Database {
    /// The catalog of a first run: no windowset, no known character.
    pub fn new() -> (db: Database)
        ensures
            db@.groups.len() == 0,
            db@.characters.len() == 0,
            db@.current_group == 0,
    {
        Database { groups: Vec::new(), characters: Vec::new(), current_group: 0 }
    }
}

} // verus!

verus! {

/// Whether some character of `s` is called `name`.
pub open spec fn has_named(s: Seq<CharacterView>, name: Seq<char>) -> bool {
    exists|i: int| 0 <= i < s.len() && #[trigger] s[i].name == name
}

/// Whether `i` is the first position of `s` that holds a character called `name`.
pub open spec fn is_first_named(s: Seq<CharacterView>, name: Seq<char>, i: int) -> bool {
    &&& 0 <= i < s.len()
    &&& s[i].name == name
    &&& forall|j: int| 0 <= j < i ==> #[trigger] s[j].name != name
}

/// The first position of `s` that holds a character called `name`, or -1.
pub open spec fn first_named(s: Seq<CharacterView>, name: Seq<char>) -> int {
    if has_named(s, name) {
        choose|i: int| is_first_named(s, name, i)
    } else {
        -1
    }
}

/// The first position is unique.
pub proof fn lemma_first_named(s: Seq<CharacterView>, name: Seq<char>, i: int)
    requires
        is_first_named(s, name, i),
    ensures
        first_named(s, name) == i,
{
    assert(has_named(s, name));
    let k = choose|k: int| is_first_named(s, name, k);
    assert(is_first_named(s, name, k));
    if k < i {
        assert(s[k].name != name);
    }
    if i < k {
        assert(s[i].name != name);
    }
}

/// The character that the catalog `known` gives for `name`: the one it
/// holds, else a fresh one.
pub open spec fn catalog_pick(known: Seq<CharacterView>, name: Seq<char>) -> CharacterView {
    if has_named(known, name) {
        known[first_named(known, name)]
    } else {
        fresh_character(name)
    }
}

/// The first position of `s` that holds a character called `name`.
pub fn position_of(s: &Vec<Character>, name: &String) -> (r: Option<usize>)
    ensures
        match r {
            Some(i) => i < s@.len() && is_first_named(characters_view(s@), name@, i as int) && first_named(
                characters_view(s@),
                name@,
            ) == i,
            None => !has_named(characters_view(s@), name@) && first_named(
                characters_view(s@),
                name@,
            ) == -1,
        },
{
    let ghost v = characters_view(s@);
    for i in 0..s.len()
        invariant
            v == characters_view(s@),
            forall|j: int| 0 <= j < i ==> #[trigger] v[j].name != name@,
    {
        if s[i].name == *name {
            proof {
                lemma_first_named(v, name@, i as int);
            }
            return Some(i);
        }
    }
    None
}

/// The character that the catalog `known` gives for `name`.
pub fn pick_character(known: &Vec<Character>, name: &String) -> (c: Character)
    ensures
        c@ == catalog_pick(characters_view(known@), name@),
{
    match position_of(known, name) {
        Some(i) => known[i].clone(),
        None => Character::new(name.as_str()),
    }
}

} // verus!
