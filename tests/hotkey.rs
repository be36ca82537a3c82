use dofus_switcher::hotkey::{
    classify, handle_event, is_backslash_pressed, is_shift_pressed, Command, InputEvent, Key,
    ModifierLatch,
};

#[test]
fn latches_follow_press_and_release() {
    let mut latch = ModifierLatch::new();
    assert!(!is_shift_pressed(&latch));
    assert!(!is_backslash_pressed(&latch));
    assert_eq!(handle_event(&mut latch, InputEvent::KeyPress(Key::ShiftLeft)), None);
    assert!(is_shift_pressed(&latch));
    assert_eq!(handle_event(&mut latch, InputEvent::KeyPress(Key::IntlBackslash)), None);
    assert!(is_backslash_pressed(&latch));
    handle_event(&mut latch, InputEvent::KeyRelease(Key::ShiftLeft));
    assert!(!is_shift_pressed(&latch));
    handle_event(&mut latch, InputEvent::KeyRelease(Key::IntlBackslash));
    assert!(!is_backslash_pressed(&latch));
}

#[test]
fn slot_keys_select_by_index() {
    let latch = ModifierLatch::new();
    assert_eq!(classify(Key::F1, &latch), Some(Command::SelectByIndex { index: 0 }));
    assert_eq!(classify(Key::F4, &latch), Some(Command::SelectByIndex { index: 3 }));
    assert_eq!(classify(Key::F8, &latch), Some(Command::SelectByIndex { index: 7 }));
}

#[test]
fn modifier_skips_leader_for_travel_and_context_click() {
    let free = ModifierLatch::new();
    let held = ModifierLatch { shift: false, backslash: true };
    assert_eq!(classify(Key::PageUp, &free), Some(Command::Travel { skip_leader: false }));
    assert_eq!(classify(Key::PageUp, &held), Some(Command::Travel { skip_leader: true }));
    assert_eq!(classify(Key::End, &free), Some(Command::ContextClickAll { skip_leader: false }));
    assert_eq!(classify(Key::End, &held), Some(Command::ContextClickAll { skip_leader: true }));
    assert_eq!(classify(Key::Delete, &held), Some(Command::ClickAll));
    assert_eq!(classify(Key::PageDown, &held), Some(Command::DoubleClickAll));
    assert_eq!(classify(Key::Home, &held), Some(Command::InviteAll));
}

#[test]
fn tab_direction_flips_with_each_modifier() {
    let none = ModifierLatch { shift: false, backslash: false };
    let shift = ModifierLatch { shift: true, backslash: false };
    let back = ModifierLatch { shift: false, backslash: true };
    let both = ModifierLatch { shift: true, backslash: true };
    assert_eq!(classify(Key::Tab, &none), Some(Command::CycleFocus { forward: true }));
    assert_eq!(classify(Key::Tab, &shift), Some(Command::CycleFocus { forward: false }));
    assert_eq!(classify(Key::Tab, &back), Some(Command::CycleFocus { forward: false }));
    assert_eq!(classify(Key::Tab, &both), Some(Command::CycleFocus { forward: true }));
}

#[test]
fn other_events_are_ignored() {
    let mut latch = ModifierLatch::new();
    assert_eq!(handle_event(&mut latch, InputEvent::KeyPress(Key::Other)), None);
    assert_eq!(handle_event(&mut latch, InputEvent::KeyRelease(Key::PageUp)), None);
    assert_eq!(handle_event(&mut latch, InputEvent::Other), None);
    assert_eq!(latch, ModifierLatch::new());
    assert_eq!(
        handle_event(&mut latch, InputEvent::KeyPress(Key::Home)),
        Some(Command::InviteAll)
    );
}

#[test]
fn only_travel_reads_the_clipboard() {
    assert!(Command::Travel { skip_leader: false }.needs_clipboard());
    assert!(!Command::InviteAll.needs_clipboard());
}
