use dofus_switcher::model::{Character, Database, Group};
use dofus_switcher::registry::{
    get_active_characters, get_available_characters, learn_characters, refresh, resolve,
    resolve_current, LiveWindow,
};
use dofus_switcher::store::{add_character_to_group, create_group, set_character_enabled};

fn live(pairs: &[(&str, u32)]) -> Vec<LiveWindow> {
    pairs.iter().map(|(n, h)| LiveWindow { name: n.to_string(), handle: *h }).collect()
}

fn resolved_names(r: &[(u32, Character)]) -> Vec<(u32, String)> {
    r.iter().map(|(h, c)| (*h, c.name.clone())).collect()
}

#[test]
fn first_refresh_learns_and_resolves() {
    let mut db = Database::new();
    let wins = live(&[("Alice", 11), ("Bob", 22)]);
    let (resolved, grew) = refresh(&mut db, &wins);
    assert!(resolved.is_none());
    assert!(grew);
    assert_eq!(db.characters.len(), 2);
    for c in &db.characters {
        assert!(c.enabled);
        assert_eq!(c.breed, None);
    }
    let mut known: Vec<String> = db.characters.iter().map(|c| c.name.clone()).collect();
    known.sort();
    assert_eq!(known, vec!["Alice", "Bob"]);

    create_group(&mut db, "Team".to_string());
    add_character_to_group(&mut db, 0, "Alice".to_string());
    add_character_to_group(&mut db, 0, "Bob".to_string());
    let (resolved, grew) = refresh(&mut db, &wins);
    assert!(!grew);
    let resolved = resolved.unwrap();
    assert_eq!(resolved.group, "Team");
    assert_eq!(resolved_names(&resolved.windows), vec![(11, "Alice".to_string()), (22, "Bob".to_string())]);
}

#[test]
fn learning_skips_known_names() {
    let mut db = Database::new();
    db.characters.push(Character::new("Alice"));
    let grew = learn_characters(&mut db, &live(&[("Alice", 1), ("Carl", 2), ("Carl", 3)]));
    assert!(grew);
    let known: Vec<String> = db.characters.iter().map(|c| c.name.clone()).collect();
    assert_eq!(known, vec!["Alice", "Carl"]);
    assert!(!learn_characters(&mut db, &live(&[("Carl", 2)])));
}

#[test]
fn resolve_keeps_windowset_order() {
    let g = Group {
        name: "G".to_string(),
        characters: vec![Character::new("C"), Character::new("A"), Character::new("X"), Character::new("B")],
    };
    let r = resolve(&g, &live(&[("A", 1), ("B", 2), ("C", 3)]));
    assert_eq!(
        resolved_names(&r),
        vec![(3, "C".to_string()), (1, "A".to_string()), (2, "B".to_string())]
    );
}

#[test]
fn disabling_hides_and_enabling_restores() {
    let mut db = Database::new();
    create_group(&mut db, "G".to_string());
    for n in ["A", "B", "C"] {
        add_character_to_group(&mut db, 0, n.to_string());
    }
    let wins = live(&[("A", 1), ("B", 2), ("C", 3)]);
    let before = resolve_current(&db, &wins).unwrap();
    set_character_enabled(&mut db, 0, 1, false);
    let off = resolve_current(&db, &wins).unwrap();
    assert_eq!(resolved_names(&off.windows), vec![(1, "A".to_string()), (3, "C".to_string())]);
    assert_eq!(db.groups[0].characters.len(), 3);
    assert_eq!(db.groups[0].characters[1].name, "B");
    set_character_enabled(&mut db, 0, 1, true);
    let on = resolve_current(&db, &wins).unwrap();
    assert_eq!(resolved_names(&on.windows), resolved_names(&before.windows));
}

#[test]
fn no_selected_group_resolves_nothing() {
    let db = Database::new();
    assert!(resolve_current(&db, &live(&[("A", 1)])).is_none());
}

#[test]
fn available_characters_come_from_catalog() {
    let mut db = Database::new();
    db.characters.push(Character { name: "A".to_string(), breed: None, enabled: false });
    let r = get_available_characters(&db, &live(&[("A", 1), ("B", 2)]));
    assert_eq!(r.len(), 2);
    assert!(!r[0].enabled);
    assert_eq!(r[1].name, "B");
    assert!(r[1].enabled);
}

#[test]
fn active_characters_name_the_group_position() {
    let mut db = Database::new();
    create_group(&mut db, "One".to_string());
    create_group(&mut db, "Two".to_string());
    add_character_to_group(&mut db, 1, "A".to_string());
    let resolved = resolve_current(&db, &live(&[("A", 5)]));
    let (id, chars) = get_active_characters(&db, &resolved).unwrap();
    assert_eq!(id, 1);
    assert_eq!(chars.len(), 1);
    assert_eq!(chars[0].name, "A");
    assert!(get_active_characters(&db, &None).is_none());
}
