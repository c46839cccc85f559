//! Presents: the collectible and hazard objects scattered around the arena.

use vstd::prelude::*;

verus! {

/// The two kinds of present.
#[derive(PartialEq, Eq, Clone, Copy, Debug, Structural)]
pub enum PresentType {
    /// A hazard; stores the number of hit points it removes.
    Naughty(u8),
    /// A collectible; counts towards the collected-present total.
    Nice,
}

/// A present of a given type:
/// - `Naughty`: touching it removes health points,
/// - `Nice`: touching it counts towards the collected-present total.
#[derive(Clone, Copy, Debug, PartialEq, Eq, Structural)]
pub struct Present {
    pub present_type: PresentType,
}

impl Present {
    /// Creates a new `Present` of the given type.
    pub fn new(present_type: PresentType) -> (p: Present)
        ensures
            p.present_type == present_type,
    {
        Present { present_type }
    }

    /// Returns the `PresentType` of this `Present`.
    pub fn present_type(&self) -> (t: PresentType)
        ensures
            t == self.present_type,
    {
        self.present_type
    }
}

} // verus!
