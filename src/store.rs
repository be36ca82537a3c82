//! Editing the windowsets. Every operation leaves the catalog unchanged
//! when an index is out of range, and hands back the windowsets as they
//! stand afterwards.

use vstd::prelude::*;
use crate::model::{
    Breed, Character, CharacterView, Database, DatabaseView, Group, GroupView, catalog_pick,
    characters_view, clone_characters, clone_groups, first_named, groups_view, has_named,
    pick_character, position_of,
};

verus! {

/// `db` with its windowset `id` replaced by `g`.
pub open spec fn with_group(db: DatabaseView, id: int, g: GroupView) -> DatabaseView {
    DatabaseView { groups: db.groups.update(id, g), ..db }
}

/// Whether some windowset of `groups` is called `name`.
pub open spec fn has_group_named(groups: Seq<GroupView>, name: Seq<char>) -> bool {
    exists|i: int| 0 <= i < groups.len() && #[trigger] groups[i].name == name
}

/// A new empty windowset goes first, unless the name is taken; the
/// selection keeps pointing at the windowset it pointed at.
pub open spec fn create_group_spec(db: DatabaseView, name: Seq<char>) -> DatabaseView {
    if has_group_named(db.groups, name) {
        db
    } else {
        DatabaseView {
            groups: seq![GroupView { name, characters: seq![] }] + db.groups,
            current_group: if db.current_group < db.groups.len() {
                db.current_group + 1
            } else {
                db.current_group
            },
            ..db
        }
    }
}

/// The selection after windowset `id` is removed and `len` remain: it follows
/// the windowset it pointed at, and never points past the end.
pub open spec fn current_after_delete(current: int, id: int, len: int) -> int {
    let c = if id < current {
        current - 1
    } else {
        current
    };
    if c < len {
        c
    } else if len > 0 {
        len - 1
    } else {
        0
    }
}

pub open spec fn delete_group_spec(db: DatabaseView, id: int) -> DatabaseView {
    if 0 <= id < db.groups.len() {
        DatabaseView {
            groups: db.groups.remove(id),
            current_group: current_after_delete(db.current_group, id, db.groups.len() - 1),
            ..db
        }
    } else {
        db
    }
}

pub open spec fn set_current_group_spec(db: DatabaseView, id: int) -> DatabaseView {
    if 0 <= id < db.groups.len() {
        DatabaseView { current_group: id, ..db }
    } else {
        db
    }
}

/// The character goes last in windowset `id`, as the catalog knows it,
/// unless the windowset already holds it.
pub open spec fn add_character_spec(db: DatabaseView, id: int, name: Seq<char>) -> DatabaseView {
    if 0 <= id < db.groups.len() && !has_named(db.groups[id].characters, name) {
        let g = db.groups[id];
        with_group(
            db,
            id,
            GroupView {
                name: g.name,
                characters: g.characters.push(catalog_pick(db.characters, name)),
            },
        )
    } else {
        db
    }
}

/// The windowsets as they stand.
pub fn get_groups(db: &Database) -> (r: Vec<Group>)
    ensures
        groups_view(r@) == db@.groups,
{
    clone_groups(&db.groups)
}

/// Whether `i` is the first position of `groups` that holds a windowset called `name`.
pub open spec fn is_first_group_named(groups: Seq<GroupView>, name: Seq<char>, i: int) -> bool {
    &&& 0 <= i < groups.len()
    &&& groups[i].name == name
    &&& forall|j: int| 0 <= j < i ==> #[trigger] groups[j].name != name
}

/// The first position of a windowset called `name`.
pub fn group_position(groups: &Vec<Group>, name: &String) -> (r: Option<usize>)
    ensures
        r is None <==> !has_group_named(groups_view(groups@), name@),
        r is Some ==> is_first_group_named(groups_view(groups@), name@, r->0 as int),
{
    let ghost v = groups_view(groups@);
    for i in 0..groups.len()
        invariant
            v == groups_view(groups@),
            forall|j: int| 0 <= j < i ==> #[trigger] v[j].name != name@,
    {
        if groups[i].name == *name {
            assert(v[i as int].name == name@);
            return Some(i);
        }
    }
    None
}

pub fn create_group(db: &mut Database, name: String) -> (r: Vec<Group>)
    ensures
        final(db)@ == create_group_spec(old(db)@, name@),
        groups_view(r@) == final(db)@.groups,
{
    if group_position(&db.groups, &name).is_none() {
        if db.current_group < db.groups.len() {
            db.current_group = db.current_group + 1;
        }
        let g = Group { name, characters: Vec::new() };
        assert(g@.characters =~= seq![]);
        db.groups.insert(0, g);
        assert(groups_view(db.groups@) =~= seq![GroupView { name: name@, characters: seq![] }]
            + groups_view(old(db).groups@));
    }
    clone_groups(&db.groups)
}

pub fn delete_group(db: &mut Database, id: usize) -> (r: Vec<Group>)
    ensures
        final(db)@ == delete_group_spec(old(db)@, id as int),
        groups_view(r@) == final(db)@.groups,
{
    if id < db.groups.len() {
        db.groups.remove(id);
        let len = db.groups.len();
        let mut c = db.current_group;
        if id < c {
            c = c - 1;
        }
        if c >= len {
            c = if len > 0 {
                len - 1
            } else {
                0
            };
        }
        db.current_group = c;
        assert(groups_view(db.groups@) =~= groups_view(old(db).groups@).remove(id as int));
    }
    clone_groups(&db.groups)
}

/// Selects windowset `id`, the one whose live windows the hotkeys drive.
pub fn set_current_group(db: &mut Database, id: usize) -> (r: Vec<Group>)
    ensures
        final(db)@ == set_current_group_spec(old(db)@, id as int),
        groups_view(r@) == final(db)@.groups,
{
    if id < db.groups.len() {
        db.current_group = id;
    }
    clone_groups(&db.groups)
}

pub fn add_character_to_group(db: &mut Database, id: usize, name: String) -> (r: Vec<Group>)
    ensures
        final(db)@ == add_character_spec(old(db)@, id as int, name@),
        groups_view(r@) == final(db)@.groups,
{
    if id < db.groups.len() && position_of(&db.groups[id].characters, &name).is_none() {
        let c = pick_character(&db.characters, &name);
        let mut characters = clone_characters(&db.groups[id].characters);
        let ghost before = characters_view(characters@);
        characters.push(c);
        assert(characters_view(characters@) =~= before.push(c@));
        let g = Group { name: db.groups[id].name.clone(), characters };
        db.groups.set(id, g);
        assert(groups_view(db.groups@) =~= add_character_spec(old(db)@, id as int, name@).groups);
    }
    clone_groups(&db.groups)
}

/// `s` without the characters called `name`.
pub open spec fn without_named(s: Seq<CharacterView>, name: Seq<char>) -> Seq<CharacterView> {
    s.filter(|c: CharacterView| c.name != name)
}

/// `s` with `c` placed just before (or just after, if `right`) the first
/// character called `target`, or last when there is none.
pub open spec fn place_next_to(
    s: Seq<CharacterView>,
    c: CharacterView,
    target: Seq<char>,
    right: bool,
) -> Seq<CharacterView> {
    if has_named(s, target) {
        let p = first_named(s, target);
        if right {
            s.insert(p + 1, c)
        } else {
            s.insert(p, c)
        }
    } else {
        s.push(c)
    }
}

/// Moving a character next to another: it leaves its place in windowset `id`
/// and comes back, as the catalog knows it, beside `target`.
pub open spec fn move_character_spec(
    db: DatabaseView,
    id: int,
    name: Seq<char>,
    target: Seq<char>,
    right: bool,
) -> DatabaseView {
    if 0 <= id < db.groups.len() {
        let g = db.groups[id];
        with_group(
            db,
            id,
            GroupView {
                name: g.name,
                characters: place_next_to(
                    without_named(g.characters, name),
                    catalog_pick(db.characters, name),
                    target,
                    right,
                ),
            },
        )
    } else {
        db
    }
}

pub open spec fn remove_character_spec(db: DatabaseView, id: int, index: int) -> DatabaseView {
    if 0 <= id < db.groups.len() && 0 <= index < db.groups[id].characters.len() {
        let g = db.groups[id];
        with_group(db, id, GroupView { name: g.name, characters: g.characters.remove(index) })
    } else {
        db
    }
}

pub open spec fn set_enabled_spec(db: DatabaseView, id: int, index: int, value: bool) -> DatabaseView {
    if 0 <= id < db.groups.len() && 0 <= index < db.groups[id].characters.len() {
        let g = db.groups[id];
        let c = g.characters[index];
        with_group(
            db,
            id,
            GroupView {
                name: g.name,
                characters: g.characters.update(index, CharacterView { enabled: value, ..c }),
            },
        )
    } else {
        db
    }
}

/// `s` with every character called `name` given `breed`.
pub open spec fn with_breed(s: Seq<CharacterView>, name: Seq<char>, breed: Breed) -> Seq<CharacterView> {
    s.map_values(
        |c: CharacterView|
            if c.name == name {
                CharacterView { breed: Some(breed), ..c }
            } else {
                c
            },
    )
}

/// A breed is set on the catalog's copy and on every windowset's copy alike.
pub open spec fn set_breed_spec(db: DatabaseView, name: Seq<char>, breed: Breed) -> DatabaseView {
    DatabaseView {
        groups: db.groups.map_values(
            |g: GroupView| GroupView { name: g.name, characters: with_breed(g.characters, name, breed) },
        ),
        characters: with_breed(db.characters, name, breed),
        ..db
    }
}

fn without_character(v: &Vec<Character>, name: &String) -> (r: Vec<Character>)
    ensures
        characters_view(r@) == without_named(characters_view(v@), name@),
{
    let mut r: Vec<Character> = Vec::new();
    for i in 0..v.len()
        invariant
            characters_view(r@) == without_named(characters_view(v@.take(i as int)), name@),
    {
        let ghost before = characters_view(r@);
        if !(v[i].name == *name) {
            r.push(v[i].clone());
        }
        proof {
            let s = characters_view(v@.take(i + 1));
            assert(s.drop_last() =~= characters_view(v@.take(i as int)));
            assert(s.last() == v@[i as int]@);
            reveal(Seq::filter);
            assert(characters_view(r@) =~= without_named(s, name@));
        }
    }
    assert(v@.take(v.len() as int) =~= v@);
    r
}

pub fn add_character_to_group_at(
    db: &mut Database,
    id: usize,
    name: String,
    target_name: String,
    right: bool,
) -> (r: Vec<Group>)
    ensures
        final(db)@ == move_character_spec(old(db)@, id as int, name@, target_name@, right),
        groups_view(r@) == final(db)@.groups,
{
    if id < db.groups.len() {
        let mut rest = without_character(&db.groups[id].characters, &name);
        let c = pick_character(&db.characters, &name);
        let ghost before = characters_view(rest@);
        let ghost cv = c@;
        match position_of(&rest, &target_name) {
            Some(p) => {
                assert(p < rest.len());
                if right {
                    rest.insert(p + 1, c);
                    assert(characters_view(rest@) =~= before.insert(p + 1, cv));
                } else {
                    rest.insert(p, c);
                    assert(characters_view(rest@) =~= before.insert(p as int, cv));
                }
            },
            None => {
                rest.push(c);
                assert(characters_view(rest@) =~= before.push(cv));
            },
        }
        let g = Group { name: db.groups[id].name.clone(), characters: rest };
        db.groups.set(id, g);
        assert(groups_view(db.groups@) =~= move_character_spec(
            old(db)@,
            id as int,
            name@,
            target_name@,
            right,
        ).groups);
    }
    clone_groups(&db.groups)
}

pub fn remove_character_from_group(db: &mut Database, id: usize, character_id: usize) -> (r: Vec<
    Group,
>)
    ensures
        final(db)@ == remove_character_spec(old(db)@, id as int, character_id as int),
        groups_view(r@) == final(db)@.groups,
{
    if id < db.groups.len() && character_id < db.groups[id].characters.len() {
        let mut characters = clone_characters(&db.groups[id].characters);
        let ghost before = characters_view(characters@);
        characters.remove(character_id);
        assert(characters_view(characters@) =~= before.remove(character_id as int));
        let g = Group { name: db.groups[id].name.clone(), characters };
        db.groups.set(id, g);
        assert(groups_view(db.groups@) =~= remove_character_spec(
            old(db)@,
            id as int,
            character_id as int,
        ).groups);
    }
    clone_groups(&db.groups)
}

pub fn set_character_enabled(db: &mut Database, id: usize, character_id: usize, value: bool) -> (r:
    Vec<Group>)
    ensures
        final(db)@ == set_enabled_spec(old(db)@, id as int, character_id as int, value),
        groups_view(r@) == final(db)@.groups,
{
    if id < db.groups.len() && character_id < db.groups[id].characters.len() {
        let mut characters = clone_characters(&db.groups[id].characters);
        let ghost before = characters_view(characters@);
        let mut c = characters[character_id].clone();
        c.enabled = value;
        characters.set(character_id, c);
        assert(characters_view(characters@) =~= before.update(
            character_id as int,
            CharacterView { enabled: value, ..before[character_id as int] },
        ));
        let g = Group { name: db.groups[id].name.clone(), characters };
        db.groups.set(id, g);
        assert(groups_view(db.groups@) =~= set_enabled_spec(
            old(db)@,
            id as int,
            character_id as int,
            value,
        ).groups);
    }
    clone_groups(&db.groups)
}

fn rebreed(v: &Vec<Character>, name: &String, breed: Breed) -> (r: Vec<Character>)
    ensures
        characters_view(r@) == with_breed(characters_view(v@), name@, breed),
{
    let mut r: Vec<Character> = Vec::new();
    for i in 0..v.len()
        invariant
            r@.len() == i,
            forall|k: int|
                0 <= k < i ==> (#[trigger] r@[k])@ == with_breed(characters_view(v@), name@, breed)[k],
    {
        let mut c = v[i].clone();
        if c.name == *name {
            c.breed = Some(breed);
        }
        r.push(c);
    }
    assert(characters_view(r@) =~= with_breed(characters_view(v@), name@, breed));
    r
}

pub fn set_character_breed(db: &mut Database, name: String, breed: Breed) -> (r: Vec<Group>)
    ensures
        final(db)@ == set_breed_spec(old(db)@, name@, breed),
        groups_view(r@) == final(db)@.groups,
{
    let ghost goal = set_breed_spec(old(db)@, name@, breed);
    db.characters = rebreed(&db.characters, &name, breed);
    let mut groups: Vec<Group> = Vec::new();
    for i in 0..db.groups.len()
        invariant
            groups@.len() == i,
            db.groups@ == old(db).groups@,
            goal == set_breed_spec(old(db)@, name@, breed),
            forall|k: int| 0 <= k < i ==> (#[trigger] groups@[k])@ == goal.groups[k],
    {
        let g = Group {
            name: db.groups[i].name.clone(),
            characters: rebreed(&db.groups[i].characters, &name, breed),
        };
        assert(groups_view(old(db).groups@)[i as int] == db.groups@[i as int]@);
        assert(g@ == goal.groups[i as int]);
        groups.push(g);
    }
    db.groups = groups;
    assert(groups_view(db.groups@) =~= goal.groups);
    clone_groups(&db.groups)
}

/// Deleting a windowset never leaves the selection past the end of the
/// list while some windowset remains.
pub proof fn lemma_delete_keeps_selection_in_range(db: DatabaseView, id: int)
    requires
        0 <= db.current_group,
    ensures
        ({
            let d = delete_group_spec(db, id);
            &&& 0 <= d.current_group
            &&& d.groups.len() > 0 && 0 <= id < db.groups.len() ==> d.current_group < d.groups.len()
        }),
{
}

} // verus!
