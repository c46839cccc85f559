//! Characters: the movement-direction signal, the life-cycle states, and the
//! aggregate per-character record that the per-tick logic operates on.

pub mod inventory;
pub mod status;

use vstd::prelude::*;

use crate::animation::PingPong;
use crate::animation::indices::AnimationIndices;
use crate::animation::timer::AnimationTimer;
use crate::characters::inventory::Inventory;
use crate::characters::status::Status;
use crate::moveable::Position;

verus! {

/// Current movement direction of a character, set by the input collaborator
/// once per tick and read-only to the core. `Static` means no movement key is
/// held. The direction also selects which animation family draws the sprite.
#[derive(Clone, Copy, Debug, PartialEq, Eq, Structural)]
pub enum Direction {
    Static,
    Back,
    Forward,
    Left,
    Right,
}

/// A character is in one of the following states:
/// - `Alive` and able to move,
/// - `Celebrating`, having completed the level,
/// - `Dead`, having failed to complete the level.
#[derive(Clone, Copy, Debug, PartialEq, Eq, Structural)]
pub enum CharacterState {
    Alive,
    Celebrating,
    Dead,
}

/// The full per-character state bundle: the frame table, the animation timer,
/// the displayed frame and playback flag, the input direction, the position,
/// the life-cycle status and the inventory. Each character exclusively owns
/// its bundle; the per-tick logic of this crate is the only thing that
/// mutates it.
#[derive(Clone, Copy, Debug)]
pub struct Character {
    pub indices: AnimationIndices,
    pub timer: AnimationTimer,
    pub frame: usize,
    pub ping_pong: PingPong,
    pub direction: Direction,
    pub position: Position,
    pub status: Status,
    pub inventory: Inventory,
}

impl Character {
    /// The bundle is usable by the per-tick logic: the frame table, the timer
    /// and the position are all well formed.
    pub open spec fn wf(self) -> bool {
        &&& self.indices.wf()
        &&& self.timer.wf()
        &&& self.position.wf()
    }

    /// Spawn a character: facing the camera (the idle pose one frame past the
    /// start of the moving-back range), not moving, alive, with an empty
    /// inventory.
    pub fn new(indices: AnimationIndices, timer_period_ms: u32, position: Position, health: u8) -> (c: Character)
        requires
            indices.wf(),
            0 < timer_period_ms,
            position.wf(),
        ensures
            c.indices == indices,
            c.timer.period_ms == timer_period_ms,
            c.timer.remaining_ms == timer_period_ms,
            c.frame == indices.back_start + 1,
            c.ping_pong == PingPong::Ping,
            c.direction == Direction::Static,
            c.position == position,
            c.status.state == CharacterState::Alive,
            c.status.health == health,
            c.inventory.number_of_presents == 0,
            c.wf(),
    {
        Character {
            indices,
            timer: AnimationTimer::new(timer_period_ms),
            frame: indices.back_start + 1,
            ping_pong: PingPong::Ping,
            direction: Direction::Static,
            position,
            status: Status::new(health),
            inventory: Inventory::new(),
        }
    }
}

} // verus!
