//! The life-cycle state machine: a character's health and its coarse
//! gameplay state (alive, celebrating, dead).

use vstd::prelude::*;

use crate::characters::CharacterState;

verus! {

/// Current life-cycle state and health of a character. `Alive` is the initial
/// state; `Dead` is terminal (no operation defined here leaves it except the
/// unconditional `celebrate`, which callers only invoke on living
/// characters); `Celebrating` clears back to `Alive` through
/// `end_celebration`.
#[derive(Clone, Copy, Debug, PartialEq, Eq, Structural)]
pub struct Status {
    pub state: CharacterState,
    pub health: u8,
}

impl Status {
    /// The status after removing `to_remove` health points. Removing more
    /// health than the character has transitions straight to `Dead` without
    /// touching the health count, so the unsigned value can never wrap
    /// around. Reaching exactly zero health also transitions to `Dead`.
    pub open spec fn spec_remove_health(self, to_remove: u8) -> Status {
        if self.health < to_remove {
            Status { state: CharacterState::Dead, health: self.health }
        } else if self.health == to_remove {
            Status { state: CharacterState::Dead, health: 0 }
        } else {
            Status { state: self.state, health: (self.health - to_remove) as u8 }
        }
    }

    /// The status after being told to celebrate: the state is overwritten
    /// unconditionally.
    pub open spec fn spec_celebrate(self) -> Status {
        Status { state: CharacterState::Celebrating, health: self.health }
    }

    /// The status after a celebration ends: `Celebrating` clears back to
    /// `Alive`; in any other state nothing changes.
    pub open spec fn spec_end_celebration(self) -> Status {
        if self.state == CharacterState::Celebrating {
            Status { state: CharacterState::Alive, health: self.health }
        } else {
            self
        }
    }

    /// Creates a new `Status` with the given health, alive.
    pub fn new(health: u8) -> (s: Status)
        ensures
            s.state == CharacterState::Alive,
            s.health == health,
    {
        Status { state: CharacterState::Alive, health }
    }

    /// Returns the current life-cycle state of the character.
    pub fn state(&self) -> (s: CharacterState)
        ensures
            s == self.state,
    {
        self.state
    }

    /// Remove the given number of health points. Removing more points than
    /// the character has must not wrap the unsigned health around; the
    /// character simply dies.
    pub fn remove_health(&mut self, to_remove: u8)
        ensures
            *final(self) == old(self).spec_remove_health(to_remove),
            final(self).health <= old(self).health,
            old(self).health < to_remove ==> final(self).state == CharacterState::Dead,
            to_remove <= old(self).health ==> final(self).health == old(self).health - to_remove,
            to_remove == old(self).health ==> final(self).state == CharacterState::Dead,
    {
        // Prevent underflow of the unsigned health value: asked to remove
        // more health than we have, we are dead.
        if self.health < to_remove {
            self.state = CharacterState::Dead;
            return;
        }

        self.health = self.health - to_remove;

        if self.health == 0 {
            self.state = CharacterState::Dead;
        }
    }

    /// Indicate that the character is celebrating.
    pub fn celebrate(&mut self)
        ensures
            *final(self) == old(self).spec_celebrate(),
    {
        self.state = CharacterState::Celebrating;
    }

    /// End the character's celebration: back to `Alive`, and a no-op when the
    /// character was not celebrating.
    pub fn end_celebration(&mut self)
        ensures
            *final(self) == old(self).spec_end_celebration(),
    {
        if self.state == CharacterState::Celebrating {
            self.state = CharacterState::Alive;
        }
    }
}

/// Law: celebrating and then ending the celebration lands exactly on `Alive`
/// with the health unchanged, whatever the state before; and ending a
/// celebration while already `Alive` changes nothing.
pub proof fn lemma_celebration_round_trip(s: Status)
    ensures
        s.spec_celebrate().spec_end_celebration() == (Status {
            state: CharacterState::Alive,
            health: s.health,
        }),
        s.state == CharacterState::Alive ==> s.spec_end_celebration() == s,
{
}

} // verus!
