//! Sprite animation: the ping-pong playback flag, per-family frame ranges and
//! the repeating timer that gates frame advancement.

pub mod animate_sprite;
pub mod indices;
pub mod timer;

use vstd::prelude::*;

verus! {

/// A walk cycle is drawn with a handful of frames (for example: left leg
/// forward, legs together, right leg forward). To get a natural looking walk
/// the sequence is played to its last frame and then reversed. This flag says
/// whether the animation is currently running forward through its range
/// (`Ping`) or backward (`Pong`).
#[derive(Clone, Copy, Debug, PartialEq, Eq, Structural)]
pub enum PingPong {
    Ping,
    Pong,
}

} // verus!
