//! Tests of the collision test and the resolver that drives health, inventory
//! and the win condition.

use naughty_and_nice::{
    CharacterState, Inventory, PlacedPresent, Position, Present, PresentType, Status,
    check_and_update_win_condition, collide, hit_test_presents,
};

fn placed(x: i64, y: i64, present_type: PresentType) -> PlacedPresent {
    PlacedPresent { position: Position::new(x, y), present: Present::new(present_type) }
}

#[test]
fn collide_uses_strict_overlap() {
    let origin = Position::new(0, 0);
    // Entities are 48 pixels wide: centres exactly 48 pixels apart only touch.
    assert!(collide(&origin, &Position::new(47_999, 0)));
    assert!(!collide(&origin, &Position::new(48_000, 0)));
    assert!(collide(&origin, &Position::new(0, -47_999)));
    assert!(!collide(&origin, &Position::new(0, -48_000)));
    // Both axes must overlap.
    assert!(!collide(&origin, &Position::new(47_999, 48_000)));
}

#[test]
fn win_condition_fires_at_threshold() {
    let mut inventory = Inventory::new();
    inventory.add_present();
    let mut status = Status::new(100);
    check_and_update_win_condition(&inventory, &mut status);
    assert_eq!(status.state(), CharacterState::Celebrating);
}

#[test]
fn win_condition_quiet_off_threshold() {
    let inventory = Inventory::new();
    let mut status = Status::new(100);
    check_and_update_win_condition(&inventory, &mut status);
    assert_eq!(status.state(), CharacterState::Alive);

    let mut two = Inventory::new();
    two.add_present();
    two.add_present();
    check_and_update_win_condition(&two, &mut status);
    assert_eq!(status.state(), CharacterState::Alive);
}

#[test]
fn naughty_present_removes_health() {
    let player = Position::new(0, 0);
    let mut status = Status::new(100);
    let mut inventory = Inventory::new();
    let presents = vec![placed(10_000, 0, PresentType::Naughty(20))];
    let consumed = hit_test_presents(&player, &mut status, &mut inventory, &presents);
    assert_eq!(consumed, vec![true]);
    assert_eq!(status.health, 80);
    assert_eq!(status.state(), CharacterState::Alive);
    assert_eq!(inventory.number_of_presents(), 0);
}

#[test]
fn lethal_present_kills_without_wrapping() {
    let player = Position::new(0, 0);
    let mut status = Status::new(100);
    let mut inventory = Inventory::new();
    let presents = vec![placed(0, 0, PresentType::Naughty(200))];
    let consumed = hit_test_presents(&player, &mut status, &mut inventory, &presents);
    assert_eq!(consumed, vec![true]);
    assert_eq!(status.state(), CharacterState::Dead);
    assert!(status.health <= 100);
}

#[test]
fn nice_present_is_collected_and_wins() {
    let player = Position::new(0, 0);
    let mut status = Status::new(100);
    let mut inventory = Inventory::new();
    let presents = vec![placed(-20_000, 5_000, PresentType::Nice)];
    let consumed = hit_test_presents(&player, &mut status, &mut inventory, &presents);
    assert_eq!(consumed, vec![true]);
    assert_eq!(inventory.number_of_presents(), 1);
    assert_eq!(status.state(), CharacterState::Celebrating);
}

#[test]
fn distant_presents_are_left_alone() {
    let player = Position::new(0, 0);
    let mut status = Status::new(100);
    let mut inventory = Inventory::new();
    let presents = vec![placed(100_000, 0, PresentType::Nice), placed(0, 100_000, PresentType::Naughty(20))];
    let consumed = hit_test_presents(&player, &mut status, &mut inventory, &presents);
    assert_eq!(consumed, vec![false, false]);
    assert_eq!(status.health, 100);
    assert_eq!(status.state(), CharacterState::Alive);
    assert_eq!(inventory.number_of_presents(), 0);
}

#[test]
fn sweep_applies_presents_in_order() {
    let player = Position::new(0, 0);
    let mut status = Status::new(100);
    let mut inventory = Inventory::new();
    let presents = vec![
        placed(10_000, 0, PresentType::Naughty(30)),
        placed(200_000, 0, PresentType::Nice),
        placed(-10_000, 0, PresentType::Nice),
    ];
    let consumed = hit_test_presents(&player, &mut status, &mut inventory, &presents);
    assert_eq!(consumed, vec![true, false, true]);
    assert_eq!(status.health, 70);
    assert_eq!(inventory.number_of_presents(), 1);
    // The collected present reached the win threshold.
    assert_eq!(status.state(), CharacterState::Celebrating);
}
