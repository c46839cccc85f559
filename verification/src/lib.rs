//! Per-frame gameplay core of a small top-down action game.
//!
//! The library selects which sprite frame to display, advances or reverses a
//! walk-cycle animation in sync with movement, integrates character position
//! from directional input, and drives a character's life cycle (alive,
//! celebrating, dead) from collisions with collectible and hazard objects.
//!
//! The host loop (window, input devices, rendering, audio, level loading) is
//! an external collaborator: it hands the core a per-tick elapsed time in
//! milliseconds and a movement direction, and reads back the frame index,
//! position, life-cycle state and inventory count. Positions are measured in
//! thousandths of a pixel so that all of the core's arithmetic is exact
//! integer arithmetic.

pub mod animation;
pub mod characters;
pub mod collision;
pub mod moveable;
pub mod present;

pub use animation::PingPong;
pub use animation::animate_sprite::{
    animate_sprite, determine_frame_moving, determine_frame_oneshot, handle_back, handle_forward,
    handle_left, handle_right,
};
pub use animation::indices::AnimationIndices;
pub use animation::timer::AnimationTimer;
pub use characters::{Character, CharacterState, Direction};
pub use characters::inventory::Inventory;
pub use characters::status::Status;
pub use collision::{
    ENTITY_SIZE, PRESENTS_TO_WIN, PlacedPresent, check_and_update_win_condition, collide,
    hit_test_presents,
};
pub use moveable::{
    CHARACTER_BOTTOM_BOUND, CHARACTER_LEFT_BOUND, CHARACTER_RIGHT_BOUND, CHARACTER_SPEED,
    CHARACTER_TOP_BOUND, Position,
};
pub use present::{Present, PresentType};
