use dofus_switcher::hotkey::Command;
use dofus_switcher::model::Character;
use dofus_switcher::sequencer::{cycle_target, plan, Action, Motion, MouseButton, SynthKey};
use dofus_switcher::text::{is_travel_text, travel_command};

fn windows(n: u32) -> Vec<(u32, Character)> {
    (0..n).map(|i| (100 + i, Character::new(&format!("C{i}")))).collect()
}

fn select(w: u32) -> Action {
    Action::Select { window: w }
}

fn wait(ms: u64) -> Action {
    Action::Wait { millis: ms }
}

fn key(k: SynthKey, m: Motion) -> Action {
    Action::Key { key: k, motion: m }
}

fn left() -> Action {
    Action::Click { button: MouseButton::Left }
}

fn paste_and_submit() -> Vec<Action> {
    vec![
        wait(40),
        key(SynthKey::Control, Motion::Press),
        wait(40),
        key(SynthKey::Letter('a'), Motion::Click),
        wait(40),
        key(SynthKey::Letter('v'), Motion::Click),
        wait(40),
        key(SynthKey::Control, Motion::Release),
        wait(40),
        key(SynthKey::Return, Motion::Click),
    ]
}

fn travel_steps(w: u32) -> Vec<Action> {
    let mut v = vec![select(w), wait(40), key(SynthKey::Space, Motion::Click)];
    v.extend(paste_and_submit());
    v.extend(vec![wait(200), key(SynthKey::Return, Motion::Click), wait(100)]);
    v
}

#[test]
fn cycle_wraps_both_ways() {
    assert_eq!(cycle_target(3, 4, true), 0);
    assert_eq!(cycle_target(0, 4, false), 3);
    assert_eq!(cycle_target(1, 4, true), 2);
    assert_eq!(cycle_target(2, 4, false), 1);
    let ws = windows(4);
    let p = plan(Command::CycleFocus { forward: true }, &ws, Some(103), &None);
    assert_eq!(p.actions, vec![select(100)]);
    let p = plan(Command::CycleFocus { forward: false }, &ws, Some(100), &None);
    assert_eq!(p.actions, vec![select(103)]);
}

#[test]
fn cycle_from_unknown_window_does_nothing() {
    let p = plan(Command::CycleFocus { forward: true }, &windows(4), Some(7), &None);
    assert!(p.actions.is_empty());
    assert!(p.clipboard.is_none());
}

#[test]
fn nothing_happens_outside_the_client_or_without_windows() {
    let p = plan(Command::ClickAll, &windows(3), None, &None);
    assert!(p.actions.is_empty());
    let p = plan(Command::ClickAll, &Vec::new(), Some(1), &None);
    assert!(p.actions.is_empty());
    let p = plan(Command::Travel { skip_leader: false }, &Vec::new(), Some(1), &Some("1,2".to_string()));
    assert!(p.actions.is_empty());
    assert!(p.clipboard.is_none());
}

#[test]
fn select_by_index_in_and_out_of_range() {
    let ws = windows(2);
    assert_eq!(plan(Command::SelectByIndex { index: 1 }, &ws, Some(100), &None).actions, vec![select(101)]);
    assert!(plan(Command::SelectByIndex { index: 2 }, &ws, Some(100), &None).actions.is_empty());
}

#[test]
fn travel_reuses_a_ready_command() {
    let ws = windows(2);
    let p = plan(Command::Travel { skip_leader: false }, &ws, Some(100), &Some("/travel 5,-3".to_string()));
    assert!(p.clipboard.is_none());
    let mut expected = travel_steps(100);
    expected.extend(travel_steps(101));
    expected.push(select(100));
    assert_eq!(p.actions, expected);
}

#[test]
fn travel_builds_command_from_coordinates() {
    let ws = windows(3);
    let p = plan(Command::Travel { skip_leader: true }, &ws, Some(100), &Some("blah (5,-3) blah".to_string()));
    assert_eq!(p.clipboard, Some("/travel 5,-3".to_string()));
    let mut expected = travel_steps(101);
    expected.extend(travel_steps(102));
    expected.push(select(100));
    assert_eq!(p.actions, expected);
}

#[test]
fn travel_without_coordinates_or_clipboard_does_nothing() {
    let ws = windows(2);
    let p = plan(Command::Travel { skip_leader: false }, &ws, Some(100), &Some("no place".to_string()));
    assert!(p.actions.is_empty());
    assert!(p.clipboard.is_none());
    let p = plan(Command::Travel { skip_leader: false }, &ws, Some(100), &None);
    assert!(p.actions.is_empty());
}

#[test]
fn travel_text_parsing() {
    assert_eq!(travel_command("/travel 5,-3"), Some("/travel 5,-3".to_string()));
    assert_eq!(travel_command("blah (5,-3) blah"), Some("/travel 5,-3".to_string()));
    assert_eq!(travel_command("[-12,34]"), Some("/travel -12,34".to_string()));
    assert_eq!(travel_command("a-,1,2,3"), Some("/travel 1,2".to_string()));
    assert_eq!(travel_command("x 7, 8 then 9,-x and 10,11"), Some("/travel 10,11".to_string()));
    assert_eq!(travel_command("--4,--5 6,7"), Some("/travel 6,7".to_string()));
    assert_eq!(travel_command("é 3,4"), Some("/travel 3,4".to_string()));
    assert_eq!(travel_command("12,"), None);
    assert_eq!(travel_command(""), None);
    assert!(is_travel_text("/travel anything"));
    assert!(!is_travel_text("/travel"));
    assert!(!is_travel_text(" /travel 1,2"));
}

#[test]
fn invite_from_leader() {
    let ws = windows(3);
    let p = plan(Command::InviteAll, &ws, Some(102), &None);
    let mut expected = vec![select(100), wait(40), key(SynthKey::Space, Motion::Click)];
    for name in ["C1", "C2"] {
        expected.push(Action::SetClipboard { text: format!("/invite {name}") });
        expected.extend(paste_and_submit());
        expected.push(wait(100));
    }
    assert_eq!(p.actions, expected);
    assert!(p.clipboard.is_none());
}

#[test]
fn invite_alone_only_opens_the_chat() {
    let p = plan(Command::InviteAll, &windows(1), Some(100), &None);
    assert_eq!(p.actions, vec![select(100), wait(40), key(SynthKey::Space, Motion::Click)]);
}

#[test]
fn click_sweeps() {
    let ws = windows(2);
    let right = Action::Click { button: MouseButton::Right };
    let p = plan(Command::ClickAll, &ws, Some(100), &None);
    assert_eq!(p.actions, vec![select(100), left(), wait(150), select(101), left(), wait(150), select(100)]);
    let p = plan(Command::DoubleClickAll, &ws, Some(100), &None);
    assert_eq!(
        p.actions,
        vec![
            select(100), left(), left(), wait(150),
            select(101), left(), left(), wait(150),
            select(100)
        ]
    );
    let p = plan(Command::ContextClickAll { skip_leader: true }, &ws, Some(100), &None);
    assert_eq!(p.actions, vec![select(101), right, wait(150), select(100)]);
    let p = plan(Command::ContextClickAll { skip_leader: true }, &windows(1), Some(100), &None);
    assert_eq!(p.actions, vec![select(100)]);
}
