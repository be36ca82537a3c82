//! What each command does to the windows, written out as a plan: a list of
//! focus changes, pauses, synthetic keys and clicks, and clipboard writes,
//! computed from a snapshot of the resolved window list. Running a plan is
//! the caller's business; a failed step is skipped and the plan goes on.

use vstd::prelude::*;
use vstd::string::*;
use crate::hotkey::Command;
use crate::model::{Character, CharacterView};
use crate::registry::resolved_view;
use crate::text::{is_travel_command, is_travel_text, travel_command, travel_command_spec};

verus! {

#[derive(Clone, Copy, Debug, PartialEq, Eq, Structural)]
pub enum SynthKey {
    Space,
    Control,
    Return,
    Letter(char),
}

#[derive(Clone, Copy, Debug, PartialEq, Eq, Structural)]
pub enum Motion {
    Press,
    Release,
    Click,
}

#[derive(Clone, Copy, Debug, PartialEq, Eq, Structural)]
pub enum MouseButton {
    Left,
    Right,
    Middle,
}

/// One step of a plan.
#[derive(Debug, PartialEq, Eq)]
pub enum Action {
    /// Raise and focus the window, wait until it has the focus, then click
    /// the middle button in it.
    Select { window: u32 },
    Wait { millis: u64 },
    Key { key: SynthKey, motion: Motion },
    Click { button: MouseButton },
    SetClipboard { text: String },
}

pub ghost enum ActionView {
    Select { window: u32 },
    Wait { millis: u64 },
    Key { key: SynthKey, motion: Motion },
    Click { button: MouseButton },
    SetClipboard { text: Seq<char> },
}

impl View for Action {
    type V = ActionView;

    open spec fn view(&self) -> ActionView {
        match self {
            Action::Select { window } => ActionView::Select { window: *window },
            Action::Wait { millis } => ActionView::Wait { millis: *millis },
            Action::Key { key, motion } => ActionView::Key { key: *key, motion: *motion },
            Action::Click { button } => ActionView::Click { button: *button },
            Action::SetClipboard { text } => ActionView::SetClipboard { text: text@ },
        }
    }
}

pub open spec fn actions_view(s: Seq<Action>) -> Seq<ActionView> {
    s.map_values(|a: Action| a@)
}

/// A command's plan: the clipboard text to write before anything else (if
/// that write fails, nothing of the plan is done), then the steps.
#[derive(Debug)]
pub struct Plan {
    pub clipboard: Option<String>,
    pub actions: Vec<Action>,
}

pub open spec fn wait(millis: u64) -> ActionView {
    ActionView::Wait { millis }
}

pub open spec fn key(key: SynthKey, motion: Motion) -> ActionView {
    ActionView::Key { key, motion }
}

/// Select the whole input line, paste over it, and submit.
pub open spec fn paste_and_submit() -> Seq<ActionView> {
    seq![
        wait(40),
        key(SynthKey::Control, Motion::Press),
        wait(40),
        key(SynthKey::Letter('a'), Motion::Click),
        wait(40),
        key(SynthKey::Letter('v'), Motion::Click),
        wait(40),
        key(SynthKey::Control, Motion::Release),
        wait(40),
        key(SynthKey::Return, Motion::Click),
    ]
}

/// In one window: open the chat line, paste the travel command, submit it,
/// and confirm the dialog that follows.
pub open spec fn travel_steps(window: u32) -> Seq<ActionView> {
    seq![ActionView::Select { window }, wait(40), key(SynthKey::Space, Motion::Click)]
        + paste_and_submit() + seq![
        wait(200),
        key(SynthKey::Return, Motion::Click),
        wait(100),
    ]
}

pub open spec fn click_steps(window: u32, button: MouseButton, double: bool) -> Seq<ActionView> {
    if double {
        seq![
            ActionView::Select { window },
            ActionView::Click { button },
            ActionView::Click { button },
            wait(150),
        ]
    } else {
        seq![ActionView::Select { window }, ActionView::Click { button }, wait(150)]
    }
}

pub open spec fn invite_prefix() -> Seq<char> {
    seq!['/', 'i', 'n', 'v', 'i', 't', 'e', ' ']
}

/// In the leader's window: invite one follower.
pub open spec fn invite_steps(name: Seq<char>) -> Seq<ActionView> {
    seq![ActionView::SetClipboard { text: invite_prefix() + name }] + paste_and_submit() + seq![
        wait(100),
    ]
}

/// The per-window part of a sweep over the windows.
#[derive(Clone, Copy, Debug, PartialEq, Eq, Structural)]
pub enum SweepKind {
    Travel,
    Invite,
    Click { button: MouseButton, double: bool },
}

pub open spec fn steps_of(kind: SweepKind, window: u32, name: Seq<char>) -> Seq<ActionView> {
    match kind {
        SweepKind::Travel => travel_steps(window),
        SweepKind::Invite => invite_steps(name),
        SweepKind::Click { button, double } => click_steps(window, button, double),
    }
}

/// The steps of `kind` for each window of `ws`, in order.
pub open spec fn sweep(ws: Seq<(u32, CharacterView)>, kind: SweepKind) -> Seq<ActionView>
    decreases ws.len(),
{
    if ws.len() == 0 {
        seq![]
    } else {
        sweep(ws.drop_last(), kind) + steps_of(kind, ws.last().0, ws.last().1.name)
    }
}

/// The windows from position `skip` on.
pub open spec fn from_position(ws: Seq<(u32, CharacterView)>, skip: int) -> Seq<(u32, CharacterView)> {
    if skip < ws.len() {
        ws.subrange(skip, ws.len() as int)
    } else {
        seq![]
    }
}

/// Focus back on the leader, if there is one.
pub open spec fn refocus_leader(ws: Seq<(u32, CharacterView)>) -> Seq<ActionView> {
    if ws.len() > 0 {
        seq![ActionView::Select { window: ws[0].0 }]
    } else {
        seq![]
    }
}

/// The position that cycling moves to from `pos`, among `len` windows.
pub open spec fn cycle_spec(pos: int, len: int, forward: bool) -> int {
    if forward {
        (pos + 1) % len
    } else {
        (pos + len - 1) % len
    }
}

pub open spec fn is_first_handle(ws: Seq<(u32, CharacterView)>, h: u32, i: int) -> bool {
    &&& 0 <= i < ws.len()
    &&& ws[i].0 == h
    &&& forall|j: int| 0 <= j < i ==> #[trigger] ws[j].0 != h
}

pub open spec fn has_handle(ws: Seq<(u32, CharacterView)>, h: u32) -> bool {
    exists|i: int| 0 <= i < ws.len() && #[trigger] ws[i].0 == h
}

pub open spec fn empty_plan() -> (Option<Seq<char>>, Seq<ActionView>) {
    (None, seq![])
}

/// What a command does, given the resolved window list `ws`, the focused
/// window of the game client (`None` when the focus is elsewhere, and then
/// nothing happens), and the clipboard text (`None` when it cannot be read).
pub open spec fn plan_spec(
    command: Command,
    ws: Seq<(u32, CharacterView)>,
    active: Option<u32>,
    clipboard: Option<Seq<char>>,
) -> (Option<Seq<char>>, Seq<ActionView>) {
    if active is None || ws.len() == 0 {
        empty_plan()
    } else {
        match command {
            Command::CycleFocus { forward } => {
                if has_handle(ws, active->0) {
                    let pos = choose|i: int| is_first_handle(ws, active->0, i);
                    (
                        None,
                        seq![ActionView::Select { window: ws[cycle_spec(pos, ws.len() as int, forward)].0 }],
                    )
                } else {
                    empty_plan()
                }
            },
            Command::SelectByIndex { index } => {
                if index < ws.len() {
                    (None, seq![ActionView::Select { window: ws[index as int].0 }])
                } else {
                    empty_plan()
                }
            },
            Command::Travel { skip_leader } => match clipboard {
                Some(text) => match travel_command_spec(text) {
                    Some(cmd) => (
                        if is_travel_command(text) {
                            None
                        } else {
                            Some(cmd)
                        },
                        sweep(from_position(ws, if skip_leader { 1 } else { 0 }), SweepKind::Travel)
                            + refocus_leader(ws),
                    ),
                    None => empty_plan(),
                },
                None => empty_plan(),
            },
            Command::InviteAll => (
                None,
                seq![ActionView::Select { window: ws[0].0 }, wait(40), key(SynthKey::Space, Motion::Click)]
                    + sweep(from_position(ws, 1), SweepKind::Invite),
            ),
            Command::ClickAll => (
                None,
                sweep(ws, SweepKind::Click { button: MouseButton::Left, double: false })
                    + refocus_leader(ws),
            ),
            Command::DoubleClickAll => (
                None,
                sweep(ws, SweepKind::Click { button: MouseButton::Left, double: true })
                    + refocus_leader(ws),
            ),
            Command::ContextClickAll { skip_leader } => (
                None,
                sweep(
                    from_position(ws, if skip_leader { 1 } else { 0 }),
                    SweepKind::Click { button: MouseButton::Right, double: false },
                ) + refocus_leader(ws),
            ),
        }
    }
}

/// The position that cycling moves to from `pos`, wrapping at both ends.
pub fn cycle_target(pos: usize, len: usize, forward: bool) -> (r: usize)
    requires
        pos < len,
    ensures
        r as int == cycle_spec(pos as int, len as int, forward),
        r < len,
{
    if forward {
        if pos + 1 == len {
            assert((pos + 1) % (len as int) == 0) by (nonlinear_arith)
                requires
                    pos + 1 == len,
                    len > 0,
            ;
            0
        } else {
            assert((pos + 1) % (len as int) == pos + 1) by (nonlinear_arith)
                requires
                    pos + 1 < len,
            ;
            pos + 1
        }
    } else {
        if pos == 0 {
            assert((pos + len - 1) % (len as int) == len - 1) by (nonlinear_arith)
                requires
                    pos == 0,
                    len > 0,
            ;
            len - 1
        } else {
            assert((pos + len - 1) % (len as int) == pos - 1) by (nonlinear_arith)
                requires
                    0 < pos < len,
            ;
            pos - 1
        }
    }
}

fn push(v: &mut Vec<Action>, a: Action)
    ensures
        actions_view(final(v)@) == actions_view(old(v)@).push(a@),
{
    let ghost av = a@;
    v.push(a);
    assert(actions_view(v@) =~= actions_view(old(v)@).push(av));
}

fn push_paste_and_submit(v: &mut Vec<Action>)
    ensures
        actions_view(final(v)@) == actions_view(old(v)@) + paste_and_submit(),
{
    let ghost base = actions_view(v@);
    push(v, Action::Wait { millis: 40 });
    push(v, Action::Key { key: SynthKey::Control, motion: Motion::Press });
    push(v, Action::Wait { millis: 40 });
    push(v, Action::Key { key: SynthKey::Letter('a'), motion: Motion::Click });
    push(v, Action::Wait { millis: 40 });
    push(v, Action::Key { key: SynthKey::Letter('v'), motion: Motion::Click });
    push(v, Action::Wait { millis: 40 });
    push(v, Action::Key { key: SynthKey::Control, motion: Motion::Release });
    push(v, Action::Wait { millis: 40 });
    push(v, Action::Key { key: SynthKey::Return, motion: Motion::Click });
    assert(actions_view(v@) =~= base + paste_and_submit());
}

/// The clipboard text that invites `name`.
fn invite_text(name: &String) -> (r: String)
    ensures
        r@ == invite_prefix() + name@,
{
    let mut r = String::from_str("/invite ");
    r.append(name.as_str());
    proof {
        reveal_strlit("/invite ");
        assert("/invite "@ =~= invite_prefix());
    }
    r
}

fn push_steps(v: &mut Vec<Action>, kind: SweepKind, window: u32, name: &String)
    ensures
        actions_view(final(v)@) == actions_view(old(v)@) + steps_of(kind, window, name@),
{
    let ghost base = actions_view(v@);
    match kind {
        SweepKind::Travel => {
            push(v, Action::Select { window });
            push(v, Action::Wait { millis: 40 });
            push(v, Action::Key { key: SynthKey::Space, motion: Motion::Click });
            let ghost mid = actions_view(v@);
            push_paste_and_submit(v);
            push(v, Action::Wait { millis: 200 });
            push(v, Action::Key { key: SynthKey::Return, motion: Motion::Click });
            push(v, Action::Wait { millis: 100 });
            assert(actions_view(v@) =~= base + travel_steps(window));
        },
        SweepKind::Invite => {
            push(v, Action::SetClipboard { text: invite_text(name) });
            push_paste_and_submit(v);
            push(v, Action::Wait { millis: 100 });
            assert(actions_view(v@) =~= base + invite_steps(name@));
        },
        SweepKind::Click { button, double } => {
            push(v, Action::Select { window });
            push(v, Action::Click { button });
            if double {
                push(v, Action::Click { button });
            }
            push(v, Action::Wait { millis: 150 });
            assert(actions_view(v@) =~= base + click_steps(window, button, double));
        },
    }
}

/// Appends the steps of `kind` for each window from position `skip` on.
fn push_sweep(v: &mut Vec<Action>, ws: &Vec<(u32, Character)>, skip: usize, kind: SweepKind)
    ensures
        actions_view(final(v)@) == actions_view(old(v)@) + sweep(
            from_position(resolved_view(ws@), skip as int),
            kind,
        ),
{
    let ghost base = actions_view(v@);
    let ghost rs = resolved_view(ws@);
    if skip >= ws.len() {
        assert(actions_view(v@) =~= base + sweep(from_position(rs, skip as int), kind));
        return;
    }
    let mut i: usize = skip;
    assert(rs.subrange(skip as int, skip as int) =~= seq![]);
    assert(actions_view(v@) =~= base + sweep(rs.subrange(skip as int, i as int), kind));
    while i < ws.len()
        invariant
            skip <= i <= ws@.len(),
            rs == resolved_view(ws@),
            actions_view(v@) == base + sweep(rs.subrange(skip as int, i as int), kind),
        decreases ws@.len() - i,
    {
        let ghost before = actions_view(v@);
        push_steps(v, kind, ws[i].0, &ws[i].1.name);
        proof {
            let sub = rs.subrange(skip as int, i + 1);
            assert(sub.drop_last() =~= rs.subrange(skip as int, i as int));
            assert(sub.last() == rs[i as int]);
            assert(rs[i as int].0 == ws@[i as int].0);
            assert(rs[i as int].1.name == ws@[i as int].1.name@);
            assert(actions_view(v@) =~= base + sweep(sub, kind));
        }
        i = i + 1;
    }
}

impl View for Plan {
    type V = (Option<Seq<char>>, Seq<ActionView>);

    open spec fn view(&self) -> (Option<Seq<char>>, Seq<ActionView>) {
        (
            match self.clipboard {
                Some(t) => Some(t@),
                None => None,
            },
            actions_view(self.actions@),
        )
    }
}

pub open spec fn text_view(o: Option<String>) -> Option<Seq<char>> {
    match o {
        Some(t) => Some(t@),
        None => None,
    }
}

fn handle_position(ws: &Vec<(u32, Character)>, h: u32) -> (r: Option<usize>)
    ensures
        r is None <==> !has_handle(resolved_view(ws@), h),
        r is Some ==> is_first_handle(resolved_view(ws@), h, r->0 as int),
{
    let ghost rs = resolved_view(ws@);
    for i in 0..ws.len()
        invariant
            rs == resolved_view(ws@),
            forall|j: int| 0 <= j < i ==> #[trigger] rs[j].0 != h,
    {
        if ws[i].0 == h {
            assert(rs[i as int].0 == h);
            return Some(i);
        }
    }
    None
}

fn push_refocus(v: &mut Vec<Action>, ws: &Vec<(u32, Character)>)
    requires
        ws@.len() > 0,
    ensures
        actions_view(final(v)@) == actions_view(old(v)@) + refocus_leader(resolved_view(ws@)),
{
    push(v, Action::Select { window: ws[0].0 });
    assert(actions_view(v@) =~= actions_view(old(v)@) + refocus_leader(resolved_view(ws@)));
}

fn sweep_plan(ws: &Vec<(u32, Character)>, skip: usize, kind: SweepKind) -> (r: Vec<Action>)
    requires
        ws@.len() > 0,
    ensures
        actions_view(r@) == sweep(from_position(resolved_view(ws@), skip as int), kind)
            + refocus_leader(resolved_view(ws@)),
{
    let mut v: Vec<Action> = Vec::new();
    assert(actions_view(v@) =~= seq![]);
    push_sweep(&mut v, ws, skip, kind);
    push_refocus(&mut v, ws);
    assert(actions_view(v@) =~= sweep(from_position(resolved_view(ws@), skip as int), kind)
        + refocus_leader(resolved_view(ws@)));
    v
}

/// The plan of `command`, from a snapshot `windows` of the resolved window
/// list, the focused window of the game client, and the clipboard text.
pub fn plan(
    command: Command,
    windows: &Vec<(u32, Character)>,
    active: Option<u32>,
    clipboard: &Option<String>,
) -> (p: Plan)
    ensures
        p@ == plan_spec(command, resolved_view(windows@), active, text_view(*clipboard)),
{
    let ghost ws = resolved_view(windows@);
    let empty = Plan { clipboard: None, actions: Vec::new() };
    assert(empty@ == empty_plan());
    let act = match active {
        Some(a) => a,
        None => {
            return empty;
        },
    };
    if windows.len() == 0 {
        return empty;
    }
    assert(from_position(ws, 0) =~= ws);
    let skip_of = |skip_leader: bool| -> (n: usize)
        ensures
            n == (if skip_leader { 1usize } else { 0usize }),
        {
            if skip_leader {
                1
            } else {
                0
            }
        };
    match command {
        Command::CycleFocus { forward } => match handle_position(windows, act) {
            Some(pos) => {
                proof {
                    let k = choose|k: int| is_first_handle(ws, act, k);
                    if k < pos {
                        assert(ws[k].0 != act);
                    }
                    if pos < k {
                        assert(ws[pos as int].0 != act);
                    }
                }
                let n = cycle_target(pos, windows.len(), forward);
                let mut v: Vec<Action> = Vec::new();
                push(&mut v, Action::Select { window: windows[n].0 });
                assert(actions_view(v@) =~= seq![ActionView::Select { window: ws[n as int].0 }]);
                Plan { clipboard: None, actions: v }
            },
            None => empty,
        },
        Command::SelectByIndex { index } => {
            if index < windows.len() {
                let mut v: Vec<Action> = Vec::new();
                push(&mut v, Action::Select { window: windows[index].0 });
                assert(actions_view(v@) =~= seq![ActionView::Select { window: ws[index as int].0 }]);
                Plan { clipboard: None, actions: v }
            } else {
                empty
            }
        },
        Command::Travel { skip_leader } => match clipboard {
            Some(text) => match travel_command(text.as_str()) {
                Some(cmd) => {
                    let write = if is_travel_text(text.as_str()) {
                        None
                    } else {
                        Some(cmd)
                    };
                    Plan {
                        clipboard: write,
                        actions: sweep_plan(windows, skip_of(skip_leader), SweepKind::Travel),
                    }
                },
                None => empty,
            },
            None => empty,
        },
        Command::InviteAll => {
            let mut v: Vec<Action> = Vec::new();
            push(&mut v, Action::Select { window: windows[0].0 });
            push(&mut v, Action::Wait { millis: 40 });
            push(&mut v, Action::Key { key: SynthKey::Space, motion: Motion::Click });
            let ghost head = actions_view(v@);
            assert(head =~= seq![
                ActionView::Select { window: ws[0].0 },
                wait(40),
                key(SynthKey::Space, Motion::Click),
            ]);
            push_sweep(&mut v, windows, 1, SweepKind::Invite);
            Plan { clipboard: None, actions: v }
        },
        Command::ClickAll => Plan {
            clipboard: None,
            actions: sweep_plan(windows, 0, SweepKind::Click { button: MouseButton::Left, double: false }),
        },
        Command::DoubleClickAll => Plan {
            clipboard: None,
            actions: sweep_plan(windows, 0, SweepKind::Click { button: MouseButton::Left, double: true }),
        },
        Command::ContextClickAll { skip_leader } => Plan {
            clipboard: None,
            actions: sweep_plan(
                windows,
                skip_of(skip_leader),
                SweepKind::Click { button: MouseButton::Right, double: false },
            ),
        },
    }
}

/// A clipboard that holds a travel command already is pasted as it is: the
/// travel plan writes nothing to the clipboard, and the command it stands
/// for is the clipboard text itself.
pub proof fn lemma_travel_reuses_command(
    ws: Seq<(u32, CharacterView)>,
    active: Option<u32>,
    skip_leader: bool,
    text: Seq<char>,
)
    requires
        is_travel_command(text),
    ensures
        plan_spec(Command::Travel { skip_leader }, ws, active, Some(text)).0 is None,
        travel_command_spec(text) == Some(text),
{
}

} // verus!
