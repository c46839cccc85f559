//! The player's inventory: a count of collected nice presents.

use vstd::prelude::*;

verus! {

/// Tracks how many nice presents the player has collected. The count only
/// ever grows; it drives the win condition.
#[derive(Clone, Copy, Debug, PartialEq, Eq, Structural)]
pub struct Inventory {
    pub number_of_presents: u8,
}

impl Inventory {
    /// Creates a new empty `Inventory`.
    pub fn new() -> (inv: Inventory)
        ensures
            inv.number_of_presents == 0,
    {
        Inventory { number_of_presents: 0 }
    }

    /// Add a present to this `Inventory`.
    pub fn add_present(&mut self)
        requires
            old(self).number_of_presents < u8::MAX,
        ensures
            final(self).number_of_presents == old(self).number_of_presents + 1,
    {
        self.number_of_presents = self.number_of_presents + 1;
    }

    /// Returns the number of presents in this `Inventory`.
    pub fn number_of_presents(&self) -> (n: u8)
        ensures
            n == self.number_of_presents,
    {
        self.number_of_presents
    }
}

} // verus!
