//! The window registry: which characters of the selected windowset have a
//! live, enabled window, in windowset order, and which live windows the
//! catalog learns about.

use vstd::prelude::*;
use crate::store::{group_position, has_group_named, is_first_group_named, set_enabled_spec};
use crate::model::{
    Character, CharacterView, Database, DatabaseView, Group, catalog_pick,
    characters_view, fresh_character, has_named, pick_character, position_of,
};

verus! {

/// A live window of the game client: the character name its title starts
/// with, and its window handle.
#[derive(Debug)]
pub struct LiveWindow {
    pub name: String,
    pub handle: u32,
}

impl View for LiveWindow {
    type V = (Seq<char>, u32);

    open spec fn view(&self) -> (Seq<char>, u32) {
        (self.name@, self.handle)
    }
}

/// The views of a sequence of live windows.
pub open spec fn windows_view(s: Seq<LiveWindow>) -> Seq<(Seq<char>, u32)> {
    s.map_values(|w: LiveWindow| w@)
}

/// Whether some live window is called `name`.
pub open spec fn has_window(wins: Seq<(Seq<char>, u32)>, name: Seq<char>) -> bool {
    exists|i: int| 0 <= i < wins.len() && #[trigger] wins[i].0 == name
}

pub open spec fn is_first_window(wins: Seq<(Seq<char>, u32)>, name: Seq<char>, i: int) -> bool {
    &&& 0 <= i < wins.len()
    &&& wins[i].0 == name
    &&& forall|j: int| 0 <= j < i ==> #[trigger] wins[j].0 != name
}

/// The handle of the first live window called `name`.
pub open spec fn handle_of(wins: Seq<(Seq<char>, u32)>, name: Seq<char>) -> u32 {
    wins[choose|i: int| is_first_window(wins, name, i)].1
}

/// A character takes part in dispatch when it is enabled and its window is live.
pub open spec fn is_dispatched(c: CharacterView, wins: Seq<(Seq<char>, u32)>) -> bool {
    c.enabled && has_window(wins, c.name)
}

/// The resolved window list of a windowset: its dispatched characters, in
/// windowset order, each with the handle of its window.
pub open spec fn resolve_spec(chars: Seq<CharacterView>, wins: Seq<(Seq<char>, u32)>) -> Seq<
    (u32, CharacterView),
>
    decreases chars.len(),
{
    if chars.len() == 0 {
        seq![]
    } else {
        let r = resolve_spec(chars.drop_last(), wins);
        let c = chars.last();
        if is_dispatched(c, wins) {
            r.push((handle_of(wins, c.name), c))
        } else {
            r
        }
    }
}

/// The views of a resolved window list.
pub open spec fn resolved_view(s: Seq<(u32, Character)>) -> Seq<(u32, CharacterView)> {
    s.map_values(|p: (u32, Character)| (p.0, p.1@))
}

/// The catalog after it meets the live windows: each name it did not know
/// is added, enabled and without breed, in the order the windows come.
pub open spec fn learn_spec(known: Seq<CharacterView>, wins: Seq<(Seq<char>, u32)>) -> Seq<
    CharacterView,
>
    decreases wins.len(),
{
    if wins.len() == 0 {
        known
    } else {
        let k = learn_spec(known, wins.drop_last());
        let name = wins.last().0;
        if has_named(k, name) {
            k
        } else {
            k.push(fresh_character(name))
        }
    }
}

fn window_of(wins: &Vec<LiveWindow>, name: &String) -> (r: Option<u32>)
    ensures
        r is Some <==> has_window(windows_view(wins@), name@),
        r is Some ==> r->0 == handle_of(windows_view(wins@), name@),
{
    let ghost v = windows_view(wins@);
    for i in 0..wins.len()
        invariant
            v == windows_view(wins@),
            forall|j: int| 0 <= j < i ==> #[trigger] v[j].0 != name@,
    {
        if wins[i].name == *name {
            proof {
                assert(is_first_window(v, name@, i as int));
                let k = choose|k: int| is_first_window(v, name@, k);
                if k < i {
                    assert(v[k].0 != name@);
                }
                if i < k {
                    assert(v[i as int].0 != name@);
                }
            }
            return Some(wins[i].handle);
        }
    }
    None
}

/// Resolves a windowset against the live windows.
pub fn resolve(group: &Group, windows: &Vec<LiveWindow>) -> (r: Vec<(u32, Character)>)
    ensures
        resolved_view(r@) == resolve_spec(group@.characters, windows_view(windows@)),
{
    let ghost chars = group@.characters;
    let ghost wins = windows_view(windows@);
    let mut r: Vec<(u32, Character)> = Vec::new();
    for i in 0..group.characters.len()
        invariant
            chars == group@.characters,
            wins == windows_view(windows@),
            resolved_view(r@) == resolve_spec(chars.take(i as int), wins),
    {
        let ghost before = resolved_view(r@);
        let c = &group.characters[i];
        if c.enabled {
            match window_of(windows, &c.name) {
                Some(h) => {
                    r.push((h, c.clone()));
                },
                None => {},
            }
        }
        proof {
            assert(chars.take(i + 1).drop_last() =~= chars.take(i as int));
            assert(chars[i as int] == c@);
            assert(resolved_view(r@) =~= resolve_spec(chars.take(i + 1), wins));
        }
    }
    assert(chars.take(group.characters.len() as int) =~= chars);
    r
}

/// The resolved window list of the selected windowset, with its name.
#[derive(Debug)]
pub struct ResolvedWindows {
    pub group: String,
    pub windows: Vec<(u32, Character)>,
}

/// Resolves the selected windowset; `None` when no windowset is selected.
pub fn resolve_current(db: &Database, windows: &Vec<LiveWindow>) -> (r: Option<ResolvedWindows>)
    ensures
        match r {
            Some(rw) => 0 <= db@.current_group < db@.groups.len() && rw.group@
                == db@.groups[db@.current_group].name && resolved_view(rw.windows@)
                == resolve_spec(db@.groups[db@.current_group].characters, windows_view(windows@)),
            None => !(db@.current_group < db@.groups.len()),
        },
{
    if db.current_group < db.groups.len() {
        let g = &db.groups[db.current_group];
        Some(ResolvedWindows { group: g.name.clone(), windows: resolve(g, windows) })
    } else {
        None
    }
}

/// Adds to the catalog every live window's character it does not know yet.
/// Returns whether the catalog grew.
pub fn learn_characters(db: &mut Database, windows: &Vec<LiveWindow>) -> (grew: bool)
    ensures
        final(db)@ == (DatabaseView {
            characters: learn_spec(old(db)@.characters, windows_view(windows@)),
            ..old(db)@
        }),
        grew == (final(db)@.characters.len() > old(db)@.characters.len()),
{
    let ghost wins = windows_view(windows@);
    let ghost known = old(db)@.characters;
    let mut grew = false;
    for i in 0..windows.len()
        invariant
            wins == windows_view(windows@),
            known == old(db)@.characters,
            db.groups == old(db).groups,
            db.current_group == old(db).current_group,
            characters_view(db.characters@) == learn_spec(known, wins.take(i as int)),
            grew == (db.characters@.len() > known.len()),
            db.characters@.len() >= known.len(),
    {
        let ghost before = characters_view(db.characters@);
        if position_of(&db.characters, &windows[i].name).is_none() {
            db.characters.push(Character::new(windows[i].name.as_str()));
            grew = true;
            assert(characters_view(db.characters@) =~= before.push(
                fresh_character(windows@[i as int].name@),
            ));
        }
        proof {
            assert(wins.take(i + 1).drop_last() =~= wins.take(i as int));
            assert(wins[i as int] == windows[i as int]@);
        }
    }
    assert(wins.take(windows.len() as int) =~= wins);
    grew
}

/// One tick of the registry: the selected windowset's resolved list, and
/// whether the catalog grew (and so must be saved).
pub fn refresh(db: &mut Database, windows: &Vec<LiveWindow>) -> (r: (Option<ResolvedWindows>, bool))
    ensures
        final(db)@ == (DatabaseView {
            characters: learn_spec(old(db)@.characters, windows_view(windows@)),
            ..old(db)@
        }),
        r.1 == (final(db)@.characters.len() > old(db)@.characters.len()),
        match r.0 {
            Some(rw) => 0 <= old(db)@.current_group < old(db)@.groups.len() && rw.group@
                == old(db)@.groups[old(db)@.current_group].name && resolved_view(rw.windows@)
                == resolve_spec(
                old(db)@.groups[old(db)@.current_group].characters,
                windows_view(windows@),
            ),
            None => !(old(db)@.current_group < old(db)@.groups.len()),
        },
{
    let resolved = resolve_current(db, windows);
    let grew = learn_characters(db, windows);
    (resolved, grew)
}

/// The characters of the live windows, as the catalog knows them.
pub open spec fn available_spec(known: Seq<CharacterView>, wins: Seq<(Seq<char>, u32)>) -> Seq<
    CharacterView,
> {
    wins.map_values(|w: (Seq<char>, u32)| catalog_pick(known, w.0))
}

pub fn get_available_characters(db: &Database, windows: &Vec<LiveWindow>) -> (r: Vec<Character>)
    ensures
        characters_view(r@) == available_spec(db@.characters, windows_view(windows@)),
{
    let mut r: Vec<Character> = Vec::new();
    for i in 0..windows.len()
        invariant
            r@.len() == i,
            forall|k: int|
                0 <= k < i ==> (#[trigger] r@[k])@ == available_spec(
                    db@.characters,
                    windows_view(windows@),
                )[k],
    {
        r.push(pick_character(&db.characters, &windows[i].name));
    }
    assert(characters_view(r@) =~= available_spec(db@.characters, windows_view(windows@)));
    r
}

/// The characters of a resolved window list.
pub open spec fn resolved_characters(s: Seq<(u32, Character)>) -> Seq<CharacterView> {
    s.map_values(|p: (u32, Character)| p.1@)
}

/// The position of the resolved windowset among the windowsets, and the
/// characters of its resolved list; `None` when nothing is resolved or the
/// windowset is gone.
pub fn get_active_characters(db: &Database, resolved: &Option<ResolvedWindows>) -> (r: Option<
    (usize, Vec<Character>),
>)
    ensures
        match resolved {
            None => r is None,
            Some(rw) => if has_group_named(db@.groups, rw.group@) {
                &&& r matches Some((idx, cs))
                &&& is_first_group_named(db@.groups, rw.group@, idx as int)
                &&& characters_view(cs@) == resolved_characters(rw.windows@)
            } else {
                r is None
            },
        },
{
    match resolved {
        None => None,
        Some(rw) => match group_position(&db.groups, &rw.group) {
            None => None,
            Some(id) => {
                let mut chars: Vec<Character> = Vec::new();
                for i in 0..rw.windows.len()
                    invariant
                        chars@.len() == i,
                        forall|k: int|
                            0 <= k < i ==> (#[trigger] chars@[k])@ == rw.windows@[k].1@,
                {
                    chars.push(rw.windows[i].1.clone());
                }
                assert(characters_view(chars@) =~= resolved_characters(rw.windows@));
                Some((id, chars))
            },
        },
    }
}

proof fn lemma_resolve_prefix(
    chars: Seq<CharacterView>,
    wins: Seq<(Seq<char>, u32)>,
    k: int,
    m: int,
)
    requires
        0 <= k <= m <= chars.len(),
    ensures
        resolve_spec(chars.take(k), wins).len() <= resolve_spec(chars.take(m), wins).len(),
        forall|p: int|
            0 <= p < resolve_spec(chars.take(k), wins).len() ==> resolve_spec(chars.take(m), wins)[p]
                == resolve_spec(chars.take(k), wins)[p],
    decreases m - k,
{
    if k < m {
        lemma_resolve_prefix(chars, wins, k, m - 1);
        assert(chars.take(m).drop_last() =~= chars.take(m - 1));
    }
}

proof fn lemma_resolve_position(chars: Seq<CharacterView>, wins: Seq<(Seq<char>, u32)>, i: int)
    requires
        0 <= i < chars.len(),
        is_dispatched(chars[i], wins),
    ensures
        resolve_spec(chars.take(i), wins).len() < resolve_spec(chars.take(i + 1), wins).len(),
        resolve_spec(chars.take(i), wins).len() < resolve_spec(chars, wins).len(),
        resolve_spec(chars, wins)[resolve_spec(chars.take(i), wins).len() as int] == (
            handle_of(wins, chars[i].name),
            chars[i],
        ),
{
    assert(chars.take(i + 1).drop_last() =~= chars.take(i));
    assert(chars.take(i + 1).last() == chars[i]);
    lemma_resolve_prefix(chars, wins, i + 1, chars.len() as int);
    assert(chars.take(chars.len() as int) =~= chars);
}

/// Resolution keeps windowset order: when two characters are both
/// dispatched, the one that comes first in the windowset comes first in the
/// resolved window list, each with its own window's handle.
pub proof fn lemma_resolve_keeps_order(
    chars: Seq<CharacterView>,
    wins: Seq<(Seq<char>, u32)>,
    i: int,
    j: int,
)
    requires
        0 <= i < j < chars.len(),
        is_dispatched(chars[i], wins),
        is_dispatched(chars[j], wins),
    ensures
        exists|p: int, q: int|
            0 <= p < q < resolve_spec(chars, wins).len() && #[trigger] resolve_spec(chars, wins)[p]
                == (handle_of(wins, chars[i].name), chars[i]) && #[trigger] resolve_spec(
                chars,
                wins,
            )[q] == (handle_of(wins, chars[j].name), chars[j]),
{
    lemma_resolve_position(chars, wins, i);
    lemma_resolve_position(chars, wins, j);
    lemma_resolve_prefix(chars, wins, i + 1, j);
    let p = resolve_spec(chars.take(i), wins).len() as int;
    let q = resolve_spec(chars.take(j), wins).len() as int;
    assert(p < q);
}

/// Every entry of a resolved window list is a dispatched character of the windowset.
proof fn lemma_resolve_members(chars: Seq<CharacterView>, wins: Seq<(Seq<char>, u32)>, p: int)
    requires
        0 <= p < resolve_spec(chars, wins).len(),
    ensures
        exists|k: int|
            0 <= k < chars.len() && #[trigger] chars[k] == resolve_spec(chars, wins)[p].1
                && is_dispatched(chars[k], wins),
    decreases chars.len(),
{
    let r = resolve_spec(chars.drop_last(), wins);
    if p < r.len() {
        lemma_resolve_members(chars.drop_last(), wins, p);
        let k = choose|k: int|
            0 <= k < chars.drop_last().len() && #[trigger] chars.drop_last()[k] == r[p].1
                && is_dispatched(chars.drop_last()[k], wins);
        assert(chars[k] == chars.drop_last()[k]);
    } else {
        assert(chars[chars.len() - 1] == chars.last());
    }
}

/// No two characters of a windowset share a name.
pub open spec fn distinct_names(chars: Seq<CharacterView>) -> bool {
    forall|a: int, b: int|
        0 <= a < chars.len() && 0 <= b < chars.len() && a != b ==> #[trigger] chars[a].name
            != #[trigger] chars[b].name
}

/// Disabling a character takes it out of the resolved window list while the
/// windowset keeps it in place; enabling it again gives back the catalog,
/// and so the resolved list, exactly as they were.
pub proof fn lemma_disable_then_enable(
    db: DatabaseView,
    id: int,
    index: int,
    wins: Seq<(Seq<char>, u32)>,
)
    requires
        0 <= id < db.groups.len(),
        0 <= index < db.groups[id].characters.len(),
        db.groups[id].characters[index].enabled,
        distinct_names(db.groups[id].characters),
    ensures
        ({
            let chars = db.groups[id].characters;
            let off = set_enabled_spec(db, id, index, false);
            &&& off.groups[id].characters.len() == chars.len()
            &&& off.groups[id].characters[index].name == chars[index].name
            &&& forall|p: int|
                0 <= p < resolve_spec(off.groups[id].characters, wins).len() ==> (#[trigger] resolve_spec(
                    off.groups[id].characters,
                    wins,
                )[p]).1.name != chars[index].name
            &&& set_enabled_spec(off, id, index, true) == db
            &&& resolve_spec(set_enabled_spec(off, id, index, true).groups[id].characters, wins)
                == resolve_spec(chars, wins)
        }),
{
    let chars = db.groups[id].characters;
    let off = set_enabled_spec(db, id, index, false);
    let offc = off.groups[id].characters;
    assert forall|p: int| 0 <= p < resolve_spec(offc, wins).len() implies (#[trigger] resolve_spec(
        offc,
        wins,
    )[p]).1.name != chars[index].name by {
        lemma_resolve_members(offc, wins, p);
        let k = choose|k: int|
            0 <= k < offc.len() && #[trigger] offc[k] == resolve_spec(offc, wins)[p].1
                && is_dispatched(offc[k], wins);
        if k != index {
            assert(offc[k] == chars[k]);
        }
    }
    let on = set_enabled_spec(off, id, index, true);
    assert(on.groups[id].characters =~= chars);
    assert(on.groups =~= db.groups);
}

} // verus!
