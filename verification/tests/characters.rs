//! Tests of the life-cycle state machine, the inventory and character spawn.

use naughty_and_nice::{
    AnimationIndices, Character, CharacterState, Direction, Inventory, PingPong, Position, Status,
};

fn deer_indices() -> AnimationIndices {
    AnimationIndices {
        forward_start: 9,
        forward_end: 11,
        back_start: 0,
        back_end: 2,
        left_start: 3,
        left_end: 5,
        right_start: 6,
        right_end: 8,
        celebrate_start: 12,
        celebrate_end: 14,
        die_start: 15,
        die_end: 17,
    }
}

#[test]
fn health_underflow_guard() {
    // Removing more health than the character has kills it without wrapping
    // the unsigned count around: health never exceeds its original value.
    let mut status = Status::new(5);
    status.remove_health(6);
    assert_eq!(status.state(), CharacterState::Dead);
    assert!(status.health <= 5);
}

#[test]
fn health_exact_zero_transition() {
    // Removing exactly all health transitions straight to Dead.
    let mut status = Status::new(5);
    status.remove_health(5);
    assert_eq!(status.state(), CharacterState::Dead);
    assert_eq!(status.health, 0);
}

#[test]
fn health_partial_removal_stays_alive() {
    let mut status = Status::new(5);
    status.remove_health(2);
    assert_eq!(status.state(), CharacterState::Alive);
    assert_eq!(status.health, 3);
}

#[test]
fn celebration_round_trip() {
    // celebrate() then end_celebration() returns exactly to Alive.
    let mut status = Status::new(5);
    status.celebrate();
    assert_eq!(status.state(), CharacterState::Celebrating);
    status.end_celebration();
    assert_eq!(status.state(), CharacterState::Alive);
    assert_eq!(status.health, 5);
}

#[test]
fn end_celebration_is_noop_while_alive() {
    let mut status = Status::new(5);
    status.end_celebration();
    assert_eq!(status.state(), CharacterState::Alive);
    assert_eq!(status.health, 5);
}

#[test]
fn end_celebration_is_noop_while_dead() {
    let mut status = Status::new(5);
    status.remove_health(5);
    status.end_celebration();
    assert_eq!(status.state(), CharacterState::Dead);
}

#[test]
fn inventory_counts_presents() {
    let mut inventory = Inventory::new();
    assert_eq!(inventory.number_of_presents(), 0);
    inventory.add_present();
    inventory.add_present();
    assert_eq!(inventory.number_of_presents(), 2);
}

#[test]
fn character_spawns_idle_and_alive() {
    let character = Character::new(deer_indices(), 300, Position::new(0, 0), 100);
    // Facing the camera: one frame past the start of the moving-back range.
    assert_eq!(character.frame, 1);
    assert_eq!(character.ping_pong, PingPong::Ping);
    assert_eq!(character.direction, Direction::Static);
    assert_eq!(character.position, Position::new(0, 0));
    assert_eq!(character.status.state(), CharacterState::Alive);
    assert_eq!(character.status.health, 100);
    assert_eq!(character.inventory.number_of_presents(), 0);
    assert_eq!(character.timer.period_ms, 300);
    assert_eq!(character.timer.remaining_ms, 300);
}
