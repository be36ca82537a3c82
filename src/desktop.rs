//! The decisions behind the window-system binding: which windows belong to
//! the game client, what character a window shows, and how long to wait
//! for a window to take the focus. Reading the window properties is left
//! to the caller.

use vstd::prelude::*;
use vstd::string::*;
use crate::registry::{LiveWindow, has_window, is_first_window, windows_view};
use crate::text::chars_of;

verus! {

/// The properties of one top-level window: its `WM_CLASS` text, whether
/// its state holds the hidden atom, and its `_NET_WM_NAME` title.
#[derive(Debug)]
pub struct WindowInfo {
    pub handle: u32,
    pub class: String,
    pub hidden: bool,
    pub title: String,
}

/// The process marker that the game client's window class holds.
pub open spec fn client_marker() -> Seq<char> {
    seq!['d', 'o', 'f', 'u', 's', '.', 'e', 'x', 'e']
}

/// The title of the launcher's window, which is no character's.
pub open spec fn launcher_title() -> Seq<char> {
    seq!['D', 'o', 'f', 'u', 's']
}

/// Whether `needle` occurs in `hay`.
pub open spec fn occurs_in(needle: Seq<char>, hay: Seq<char>) -> bool {
    exists|i: int| 0 <= i && i + needle.len() <= hay.len() && #[trigger] hay.subrange(
        i,
        i + needle.len(),
    ) == needle
}

/// The instance part of a `WM_CLASS` text: its first half.
pub open spec fn class_instance_spec(class: Seq<char>) -> Seq<char> {
    class.take((class.len() / 2) as int)
}

/// The first word of a title: all of it up to the first space.
pub open spec fn title_word(title: Seq<char>) -> Seq<char> {
    if exists|i: int| 0 <= i < title.len() && #[trigger] title[i] == ' ' {
        title.take(choose|i: int| 0 <= i < title.len() && title[i] == ' ' && forall|j: int|
            0 <= j < i ==> #[trigger] title[j] != ' ')
    } else {
        title
    }
}

pub open spec fn is_client_class(class: Seq<char>) -> bool {
    occurs_in(client_marker(), class_instance_spec(class))
}

/// Whether a window is a character's window of the game client: its class
/// names the client, it is not hidden, and it is not the launcher.
pub open spec fn is_character_window(class: Seq<char>, hidden: bool, title: Seq<char>) -> bool {
    is_client_class(class) && !hidden && title_word(title) != launcher_title()
}

/// The live windows as a map from name to handle, in the order names first
/// appear: a later window with the same name takes its handle.
pub open spec fn record_window(s: Seq<(Seq<char>, u32)>, name: Seq<char>, h: u32) -> Seq<
    (Seq<char>, u32),
> {
    if has_window(s, name) {
        s.update(choose|i: int| is_first_window(s, name, i), (name, h))
    } else {
        s.push((name, h))
    }
}

pub open spec fn target_windows_spec(infos: Seq<(u32, Seq<char>, bool, Seq<char>)>) -> Seq<
    (Seq<char>, u32),
>
    decreases infos.len(),
{
    if infos.len() == 0 {
        seq![]
    } else {
        let r = target_windows_spec(infos.drop_last());
        let w = infos.last();
        if is_character_window(w.1, w.2, w.3) {
            record_window(r, title_word(w.3), w.0)
        } else {
            r
        }
    }
}

impl View for WindowInfo {
    type V = (u32, Seq<char>, bool, Seq<char>);

    open spec fn view(&self) -> (u32, Seq<char>, bool, Seq<char>) {
        (self.handle, self.class@, self.hidden, self.title@)
    }
}

pub open spec fn infos_view(s: Seq<WindowInfo>) -> Seq<(u32, Seq<char>, bool, Seq<char>)> {
    s.map_values(|w: WindowInfo| w@)
}

fn occurs_at(needle: &Vec<char>, hay: &Vec<char>, i: usize) -> (r: bool)
    requires
        i + needle@.len() <= hay@.len(),
    ensures
        r == (hay@.subrange(i as int, i + needle@.len()) == needle@),
{
    let n = needle.len();
    let hl = hay.len();
    for k in 0..n
        invariant
            n == needle@.len(),
            hl == hay@.len(),
            i + needle@.len() <= hay@.len(),
            hay@.subrange(i as int, i + k) == needle@.take(k as int),
    {
        if hay[i + k] != needle[k] {
            assert(hay@.subrange(i as int, i + needle@.len())[k as int] != needle@[k as int]);
            return false;
        }
        assert(hay@.subrange(i as int, i + k + 1) =~= needle@.take(k + 1));
    }
    assert(needle@.take(needle@.len() as int) =~= needle@);
    true
}

fn occurs(needle: &Vec<char>, hay: &Vec<char>) -> (r: bool)
    ensures
        r == occurs_in(needle@, hay@),
{
    if needle.len() > hay.len() {
        return false;
    }
    if needle.len() == 0 {
        let ghost z: int = 0;
        assert(hay@.subrange(z, z + needle@.len()) =~= needle@);
        return true;
    }
    let last = hay.len() - needle.len();
    for i in 0..last + 1
        invariant
            last + needle@.len() == hay@.len(),
            forall|j: int|
                0 <= j < i ==> #[trigger] hay@.subrange(j, j + needle@.len()) != needle@,
    {
        if occurs_at(needle, hay, i) {
            return true;
        }
    }
    false
}

/// Whether a `WM_CLASS` text names the game client.
pub fn is_client(class: &str) -> (r: bool)
    ensures
        r == is_client_class(class@),
{
    let cs = chars_of(class);
    let half = cs.len() / 2;
    let mut instance: Vec<char> = Vec::new();
    for i in 0..half
        invariant
            half <= cs@.len(),
            instance@ == cs@.take(i as int),
    {
        instance.push(cs[i]);
        assert(instance@ =~= cs@.take(i + 1));
    }
    let marker = vec!['d', 'o', 'f', 'u', 's', '.', 'e', 'x', 'e'];
    assert(marker@ =~= client_marker());
    occurs(&marker, &instance)
}

/// The first word of a window title: the character's name.
pub fn window_name(title: &str) -> (r: String)
    ensures
        r@ == title_word(title@),
{
    let cs = chars_of(title);
    for i in 0..cs.len()
        invariant
            cs@ == title@,
            forall|j: int| 0 <= j < i ==> #[trigger] cs@[j] != ' ',
    {
        if cs[i] == ' ' {
            proof {
                let k = choose|k: int| 0 <= k < title@.len() && title@[k] == ' ' && forall|j: int|
                    0 <= j < k ==> #[trigger] title@[j] != ' ';
                if k < i {
                    assert(cs@[k] != ' ');
                }
                if i < k {
                    assert(title@[i as int] != ' ');
                }
            }
            return title.substring_char(0, i).to_owned();
        }
    }
    title.to_owned()
}

fn is_launcher(name: &String) -> (r: bool)
    ensures
        r == (name@ == launcher_title()),
{
    let cs = chars_of(name.as_str());
    let r = cs.len() == 5 && cs[0] == 'D' && cs[1] == 'o' && cs[2] == 'f' && cs[3] == 'u'
        && cs[4] == 's';
    proof {
        if r {
            assert(cs@ =~= launcher_title());
        } else if cs@ == launcher_title() {
            assert(cs@[0] == 'D' && cs@[1] == 'o' && cs@[2] == 'f' && cs@[3] == 'u' && cs@[4] == 's');
        }
    }
    r
}

/// Whether a window state (a list of atoms) holds `atom`.
pub fn has_state(states: &Vec<u32>, atom: u32) -> (r: bool)
    ensures
        r == states@.contains(atom),
{
    for i in 0..states.len()
        invariant
            forall|j: int| 0 <= j < i ==> states@[j] != atom,
    {
        if states[i] == atom {
            assert(states@[i as int] == atom);
            return true;
        }
    }
    false
}

fn window_index(r: &Vec<LiveWindow>, name: &String) -> (found: Option<usize>)
    ensures
        found is None ==> !has_window(windows_view(r@), name@),
        found is Some ==> found->0 < r@.len() && is_first_window(
            windows_view(r@),
            name@,
            found->0 as int,
        ),
{
    let ghost v = windows_view(r@);
    for k in 0..r.len()
        invariant
            v == windows_view(r@),
            forall|j: int| 0 <= j < k ==> #[trigger] v[j].0 != name@,
    {
        if r[k].name == *name {
            assert(v[k as int].0 == name@);
            return Some(k);
        }
    }
    None
}

/// The character windows among the client list, by name.
pub fn target_windows(infos: &Vec<WindowInfo>) -> (r: Vec<LiveWindow>)
    ensures
        windows_view(r@) == target_windows_spec(infos_view(infos@)),
{
    let ghost iv = infos_view(infos@);
    let mut r: Vec<LiveWindow> = Vec::new();
    for i in 0..infos.len()
        invariant
            iv == infos_view(infos@),
            windows_view(r@) == target_windows_spec(iv.take(i as int)),
    {
        let ghost before = windows_view(r@);
        let w = &infos[i];
        if is_client(w.class.as_str()) && !w.hidden {
            let name = window_name(w.title.as_str());
            if !is_launcher(&name) {
                let found = window_index(&r, &name);
                match found {
                    Some(k) => {
                        proof {
                            let c = choose|c: int| is_first_window(before, name@, c);
                            if c < k {
                                assert(before[c].0 != name@);
                            }
                            if k < c {
                                assert(before[k as int].0 != name@);
                            }
                        }
                        let ghost nv = name@;
                        r.set(k, LiveWindow { name, handle: w.handle });
                        assert(windows_view(r@) =~= record_window(before, nv, w.handle));
                    },
                    None => {
                        let ghost nv = name@;
                        r.push(LiveWindow { name, handle: w.handle });
                        assert(windows_view(r@) =~= record_window(before, nv, w.handle));
                    },
                }
            }
        }
        proof {
            assert(iv.take(i + 1).drop_last() =~= iv.take(i as int));
            assert(iv.take(i + 1).last() == w@);
        }
    }
    assert(iv.take(infos.len() as int) =~= iv);
    r
}

/// How many times to check that a window took the focus, a tenth of a
/// second apart, before going on anyway.
pub const FOCUS_CHECKS: u32 = 301;

#[derive(Clone, Copy, Debug, PartialEq, Eq, Structural)]
pub enum FocusPoll {
    Focused,
    TimedOut,
    Retry,
}

/// After the `checks`-th check of the focus, which saw `focused`: whether
/// the window has it, the wait is over, or to check again.
pub fn focus_poll(checks: u32, focused: bool) -> (r: FocusPoll)
    ensures
        focused ==> r == FocusPoll::Focused,
        !focused && checks >= FOCUS_CHECKS ==> r == FocusPoll::TimedOut,
        !focused && checks < FOCUS_CHECKS ==> r == FocusPoll::Retry,
{
    if focused {
        FocusPoll::Focused
    } else if checks >= FOCUS_CHECKS {
        FocusPoll::TimedOut
    } else {
        FocusPoll::Retry
    }
}

} // verus!
