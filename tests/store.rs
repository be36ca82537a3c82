use dofus_switcher::model::{Breed, Character, Database, Group};
use dofus_switcher::store::{
    add_character_to_group, add_character_to_group_at, create_group, delete_group, get_groups,
    remove_character_from_group, set_character_breed, set_character_enabled, set_current_group,
};

fn names(g: &Group) -> Vec<String> {
    g.characters.iter().map(|c| c.name.clone()).collect()
}

fn group(name: &str, members: &[&str]) -> Group {
    Group {
        name: name.to_string(),
        characters: members.iter().map(|m| Character::new(m)).collect(),
    }
}

fn db_with(groups: Vec<Group>, current: usize) -> Database {
    Database { groups, characters: Vec::new(), current_group: current }
}

#[test]
fn new_database_is_empty() {
    let db = Database::new();
    assert!(db.groups.is_empty());
    assert!(db.characters.is_empty());
    assert_eq!(db.current_group, 0);
}

#[test]
fn create_group_goes_first() {
    let mut db = Database::new();
    create_group(&mut db, "One".to_string());
    let r = create_group(&mut db, "Two".to_string());
    assert_eq!(r.len(), 2);
    assert_eq!(r[0].name, "Two");
    assert_eq!(r[1].name, "One");
    assert!(r[0].characters.is_empty());
    // the selection still points at "One"
    assert_eq!(db.current_group, 1);
}

#[test]
fn create_group_with_taken_name_changes_nothing() {
    let mut db = db_with(vec![group("Team", &["Alice"])], 0);
    let r = create_group(&mut db, "Team".to_string());
    assert_eq!(r.len(), 1);
    assert_eq!(names(&r[0]), vec!["Alice"]);
}

#[test]
fn delete_selected_first_group_keeps_selection_in_range() {
    let mut db = db_with(vec![group("A", &[]), group("B", &[])], 0);
    let r = delete_group(&mut db, 0);
    assert_eq!(r.len(), 1);
    assert_eq!(r[0].name, "B");
    assert!(db.current_group < db.groups.len());
    assert_eq!(db.current_group, 0);
}

#[test]
fn delete_selected_last_group_moves_selection_back() {
    let mut db = db_with(vec![group("A", &[]), group("B", &[]), group("C", &[])], 2);
    delete_group(&mut db, 2);
    assert_eq!(db.current_group, 1);
}

#[test]
fn delete_before_selection_follows_selected_group() {
    let mut db = db_with(vec![group("A", &[]), group("B", &[]), group("C", &[])], 2);
    delete_group(&mut db, 0);
    assert_eq!(db.current_group, 1);
    assert_eq!(db.groups[db.current_group].name, "C");
}

#[test]
fn delete_only_group() {
    let mut db = db_with(vec![group("A", &[])], 0);
    let r = delete_group(&mut db, 0);
    assert!(r.is_empty());
    assert_eq!(db.current_group, 0);
}

#[test]
fn delete_out_of_range_changes_nothing() {
    let mut db = db_with(vec![group("A", &[])], 0);
    let r = delete_group(&mut db, 5);
    assert_eq!(r.len(), 1);
    assert_eq!(db.current_group, 0);
}

#[test]
fn select_group_in_and_out_of_range() {
    let mut db = db_with(vec![group("A", &[]), group("B", &[])], 0);
    set_current_group(&mut db, 1);
    assert_eq!(db.current_group, 1);
    set_current_group(&mut db, 7);
    assert_eq!(db.current_group, 1);
}

#[test]
fn add_character_takes_catalog_copy() {
    let mut db = db_with(vec![group("Team", &[])], 0);
    db.characters.push(Character { name: "Alice".to_string(), breed: Some(Breed::Iop), enabled: true });
    let r = add_character_to_group(&mut db, 0, "Alice".to_string());
    assert_eq!(r[0].characters[0].breed, Some(Breed::Iop));
    let r = add_character_to_group(&mut db, 0, "Bob".to_string());
    assert_eq!(names(&r[0]), vec!["Alice", "Bob"]);
    assert_eq!(r[0].characters[1].breed, None);
    assert!(r[0].characters[1].enabled);
}

#[test]
fn add_character_twice_or_out_of_range_changes_nothing() {
    let mut db = db_with(vec![group("Team", &["Alice"])], 0);
    let r = add_character_to_group(&mut db, 0, "Alice".to_string());
    assert_eq!(names(&r[0]), vec!["Alice"]);
    let r = add_character_to_group(&mut db, 3, "Bob".to_string());
    assert_eq!(names(&r[0]), vec!["Alice"]);
}

#[test]
fn move_right_then_left_is_not_idempotent() {
    let mut db = db_with(vec![group("Team", &["A", "B", "C"])], 0);
    let r = add_character_to_group_at(&mut db, 0, "C".to_string(), "A".to_string(), true);
    assert_eq!(names(&r[0]), vec!["A", "C", "B"]);
    let r = add_character_to_group_at(&mut db, 0, "C".to_string(), "A".to_string(), false);
    assert_eq!(names(&r[0]), vec!["C", "A", "B"]);
}

#[test]
fn move_with_missing_anchor_appends() {
    let mut db = db_with(vec![group("Team", &["A", "B", "C"])], 0);
    let r = add_character_to_group_at(&mut db, 0, "A".to_string(), "Z".to_string(), true);
    assert_eq!(names(&r[0]), vec!["B", "C", "A"]);
    let r = add_character_to_group_at(&mut db, 0, "D".to_string(), "B".to_string(), false);
    assert_eq!(names(&r[0]), vec!["D", "B", "C", "A"]);
}

#[test]
fn remove_character_in_and_out_of_range() {
    let mut db = db_with(vec![group("Team", &["A", "B", "C"])], 0);
    let r = remove_character_from_group(&mut db, 0, 1);
    assert_eq!(names(&r[0]), vec!["A", "C"]);
    let r = remove_character_from_group(&mut db, 0, 9);
    assert_eq!(names(&r[0]), vec!["A", "C"]);
    let r = remove_character_from_group(&mut db, 4, 0);
    assert_eq!(names(&r[0]), vec!["A", "C"]);
}

#[test]
fn set_enabled_flags_one_member() {
    let mut db = db_with(vec![group("Team", &["A", "B"])], 0);
    let r = set_character_enabled(&mut db, 0, 1, false);
    assert!(r[0].characters[0].enabled);
    assert!(!r[0].characters[1].enabled);
    let r = set_character_enabled(&mut db, 0, 2, false);
    assert!(r[0].characters[0].enabled);
}

#[test]
fn set_breed_updates_catalog_and_groups() {
    let mut db = db_with(vec![group("One", &["A", "B"]), group("Two", &["B"])], 0);
    db.characters.push(Character::new("B"));
    let r = set_character_breed(&mut db, "B".to_string(), Breed::Cra);
    assert_eq!(r[0].characters[0].breed, None);
    assert_eq!(r[0].characters[1].breed, Some(Breed::Cra));
    assert_eq!(r[1].characters[0].breed, Some(Breed::Cra));
    assert_eq!(db.characters[0].breed, Some(Breed::Cra));
}

#[test]
fn get_groups_returns_all() {
    let db = db_with(vec![group("One", &["A"]), group("Two", &[])], 0);
    let r = get_groups(&db);
    assert_eq!(r.len(), 2);
    assert_eq!(names(&r[0]), vec!["A"]);
}

#[test]
fn characters_compare_by_name() {
    let a = Character { name: "A".to_string(), breed: Some(Breed::Sram), enabled: false };
    let b = Character::new("A");
    assert!(a == b);
    assert!(a != Character::new("B"));
    assert_eq!(a.clone().breed, Some(Breed::Sram));
}

#[test]
fn breed_icon_numbers() {
    assert_eq!(Breed::Feca.to_css_id(), 1);
    assert_eq!(Breed::Xelor.to_css_id(), 5);
    assert_eq!(Breed::Pandawa.to_css_id(), 12);
    assert_eq!(Breed::Forgelance.to_css_id(), 20);
}
