use demonlist::demon::{Demon, DemonList, FullDemon, MinimalDemon};
use demonlist::difficulty::Difficulty;
use demonlist::error::DemonlistError;
use demonlist::player::DatabasePlayer;

fn md(id: i32, position: i16) -> MinimalDemon {
    MinimalDemon { id, position, name: format!("demon{}", id) }
}

fn positions_of(list: &DemonList) -> Vec<(i32, i16)> {
    let mut v: Vec<(i32, i16)> = list.demons().iter().map(|d| (d.id, d.position)).collect();
    v.sort();
    v
}

fn contiguous(list: &DemonList) -> bool {
    let mut p: Vec<i16> = list.demons().iter().map(|d| d.position).collect();
    p.sort();
    p.iter().enumerate().all(|(i, &x)| x as usize == i + 1)
}

#[test]
fn validate_requirement_range() {
    assert_eq!(Demon::validate_requirement(0), Ok(()));
    assert_eq!(Demon::validate_requirement(100), Ok(()));
    assert_eq!(Demon::validate_requirement(-1), Err(DemonlistError::InvalidRequirement));
    assert_eq!(Demon::validate_requirement(101), Err(DemonlistError::InvalidRequirement));
}

#[test]
fn validate_level_id_positive() {
    assert_eq!(Demon::validate_level_id(1), Ok(1));
    assert_eq!(Demon::validate_level_id(i64::MAX), Ok(i64::MAX as u64));
    assert_eq!(Demon::validate_level_id(0), Err(DemonlistError::InvalidLevelId));
    assert_eq!(Demon::validate_level_id(-5), Err(DemonlistError::InvalidLevelId));
}

#[test]
fn empty_list_accepts_only_first_position() {
    let list = DemonList::new();
    assert_eq!(Demon::max_position(&list), 0);
    assert_eq!(Demon::validate_position(1, &list), Ok(()));
    assert_eq!(Demon::validate_position(0, &list), Err(DemonlistError::InvalidPosition { maximal: 1 }));
    assert_eq!(Demon::validate_position(2, &list), Err(DemonlistError::InvalidPosition { maximal: 1 }));
}

#[test]
fn inserts_keep_positions_contiguous() {
    let mut list = DemonList::new();
    assert_eq!(list.insert(md(1, 1)), Ok(()));
    assert_eq!(list.insert(md(2, 1)), Ok(()));
    assert_eq!(list.insert(md(3, 3)), Ok(()));
    assert_eq!(list.insert(md(4, 2)), Ok(()));
    assert!(contiguous(&list));
    assert_eq!(positions_of(&list), vec![(1, 3), (2, 1), (3, 4), (4, 2)]);
    assert_eq!(Demon::max_position(&list), 4);
    assert_eq!(Demon::validate_position(5, &list), Ok(()));
    assert_eq!(Demon::validate_position(6, &list), Err(DemonlistError::InvalidPosition { maximal: 5 }));
}

#[test]
fn insert_at_invalid_position_changes_nothing() {
    let mut list = DemonList::new();
    assert_eq!(list.insert(md(1, 1)), Ok(()));
    assert_eq!(list.insert(md(2, 3)), Err(DemonlistError::InvalidPosition { maximal: 2 }));
    assert_eq!(list.insert(md(2, -1)), Err(DemonlistError::InvalidPosition { maximal: 2 }));
    assert_eq!(positions_of(&list), vec![(1, 1)]);
}

#[test]
fn full_demon_getters() {
    let p = DatabasePlayer { id: 1, name: "a".to_string(), banned: false };
    let fd = FullDemon {
        demon: Demon {
            base: MinimalDemon { id: 9, position: 12, name: "Bloodbath".to_string() },
            requirement: 50,
            video: None,
            thumbnail: String::new(),
            publisher: p.clone(),
            verifier: p,
            level_id: Some(10565740),
            difficulty: Difficulty::Extreme,
        },
        creators: vec![],
        records: vec![],
    };
    assert_eq!(fd.position(), 12);
    assert_eq!(fd.name(), "Bloodbath");
}
