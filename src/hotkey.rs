//! Turning global key events into commands. Two latches remember whether
//! Shift and the secondary modifier (the key left of Z on ISO keyboards)
//! are held; they are the dispatcher's only state.

use vstd::prelude::*;

verus! {

/// The keys that the dispatcher reads; every other key is `Other`.
#[derive(Clone, Copy, Debug, PartialEq, Eq, Structural)]
pub enum Key {
    Tab,
    F1,
    F2,
    F3,
    F4,
    F5,
    F6,
    F7,
    F8,
    PageUp,
    PageDown,
    Home,
    End,
    Delete,
    ShiftLeft,
    IntlBackslash,
    Other,
}

#[derive(Clone, Copy, Debug, PartialEq, Eq, Structural)]
pub enum InputEvent {
    KeyPress(Key),
    KeyRelease(Key),
    Other,
}

/// What a hotkey asks the sequencer to do.
#[derive(Clone, Copy, Debug, PartialEq, Eq, Structural)]
pub enum Command {
    /// Focus the next (or previous) window of the resolved list, wrapping.
    CycleFocus { forward: bool },
    /// Focus the window at this position of the resolved list.
    SelectByIndex { index: usize },
    /// Send the clipboard's travel command in every window.
    Travel { skip_leader: bool },
    /// Invite every follower from the leader's window.
    InviteAll,
    /// One left click in every window.
    ClickAll,
    /// Two left clicks in every window.
    DoubleClickAll,
    /// One right click in every window.
    ContextClickAll { skip_leader: bool },
}

/// Whether Shift and the secondary modifier are held.
#[derive(Clone, Copy, Debug, PartialEq, Eq, Structural)]
pub struct ModifierLatch {
    pub shift: bool,
    pub backslash: bool,
}

impl ModifierLatch {
    /// Nothing held.
    pub fn new() -> (l: ModifierLatch)
        ensures
            !l.shift,
            !l.backslash,
    {
        ModifierLatch { shift: false, backslash: false }
    }
}

/// Whether Shift is held.
pub fn is_shift_pressed(latch: &ModifierLatch) -> (r: bool)
    ensures
        r == latch.shift,
{
    latch.shift
}

/// Whether the secondary modifier is held.
pub fn is_backslash_pressed(latch: &ModifierLatch) -> (r: bool)
    ensures
        r == latch.backslash,
{
    latch.backslash
}

/// The command of a key press, as the latches stand. Tab cycles forward;
/// Shift and the secondary modifier each reverse it.
pub open spec fn command_spec(key: Key, latch: ModifierLatch) -> Option<Command> {
    match key {
        Key::Tab => Some(Command::CycleFocus { forward: latch.shift == latch.backslash }),
        Key::F1 => Some(Command::SelectByIndex { index: 0 }),
        Key::F2 => Some(Command::SelectByIndex { index: 1 }),
        Key::F3 => Some(Command::SelectByIndex { index: 2 }),
        Key::F4 => Some(Command::SelectByIndex { index: 3 }),
        Key::F5 => Some(Command::SelectByIndex { index: 4 }),
        Key::F6 => Some(Command::SelectByIndex { index: 5 }),
        Key::F7 => Some(Command::SelectByIndex { index: 6 }),
        Key::F8 => Some(Command::SelectByIndex { index: 7 }),
        Key::PageUp => Some(Command::Travel { skip_leader: latch.backslash }),
        Key::Home => Some(Command::InviteAll),
        Key::Delete => Some(Command::ClickAll),
        Key::PageDown => Some(Command::DoubleClickAll),
        Key::End => Some(Command::ContextClickAll { skip_leader: latch.backslash }),
        _ => None,
    }
}

/// The latches after an event: only presses and releases of the two
/// modifier keys change them.
pub open spec fn latch_after(latch: ModifierLatch, event: InputEvent) -> ModifierLatch {
    match event {
        InputEvent::KeyPress(Key::ShiftLeft) => ModifierLatch { shift: true, ..latch },
        InputEvent::KeyRelease(Key::ShiftLeft) => ModifierLatch { shift: false, ..latch },
        InputEvent::KeyPress(Key::IntlBackslash) => ModifierLatch { backslash: true, ..latch },
        InputEvent::KeyRelease(Key::IntlBackslash) => ModifierLatch { backslash: false, ..latch },
        _ => latch,
    }
}

pub open spec fn event_command(latch: ModifierLatch, event: InputEvent) -> Option<Command> {
    match event {
        InputEvent::KeyPress(key) => command_spec(key, latch),
        _ => None,
    }
}

/// The command of a key press.
pub fn classify(key: Key, latch: &ModifierLatch) -> (r: Option<Command>)
    ensures
        r == command_spec(key, *latch),
{
    match key {
        Key::Tab => Some(Command::CycleFocus { forward: latch.shift == latch.backslash }),
        Key::F1 => Some(Command::SelectByIndex { index: 0 }),
        Key::F2 => Some(Command::SelectByIndex { index: 1 }),
        Key::F3 => Some(Command::SelectByIndex { index: 2 }),
        Key::F4 => Some(Command::SelectByIndex { index: 3 }),
        Key::F5 => Some(Command::SelectByIndex { index: 4 }),
        Key::F6 => Some(Command::SelectByIndex { index: 5 }),
        Key::F7 => Some(Command::SelectByIndex { index: 6 }),
        Key::F8 => Some(Command::SelectByIndex { index: 7 }),
        Key::PageUp => Some(Command::Travel { skip_leader: latch.backslash }),
        Key::Home => Some(Command::InviteAll),
        Key::Delete => Some(Command::ClickAll),
        Key::PageDown => Some(Command::DoubleClickAll),
        Key::End => Some(Command::ContextClickAll { skip_leader: latch.backslash }),
        _ => None,
    }
}

/// Handles one input event: updates the latches, and gives the command the
/// event stands for, if any. It does no I/O.
pub fn handle_event(latch: &mut ModifierLatch, event: InputEvent) -> (r: Option<Command>)
    ensures
        *final(latch) == latch_after(*old(latch), event),
        r == event_command(*old(latch), event),
{
    match event {
        InputEvent::KeyPress(Key::ShiftLeft) => {
            latch.shift = true;
            None
        },
        InputEvent::KeyRelease(Key::ShiftLeft) => {
            latch.shift = false;
            None
        },
        InputEvent::KeyPress(Key::IntlBackslash) => {
            latch.backslash = true;
            None
        },
        InputEvent::KeyRelease(Key::IntlBackslash) => {
            latch.backslash = false;
            None
        },
        InputEvent::KeyPress(key) => classify(key, latch),
        _ => None,
    }
}

impl Command {
    /// Whether the command reads the clipboard before it runs.
    pub fn needs_clipboard(&self) -> (r: bool)
        ensures
            r == (*self is Travel),
    {
        match self {
            Command::Travel { .. } => true,
            _ => false,
        }
    }
}

} // verus!
