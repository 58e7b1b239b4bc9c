//! The two players and the colors they play in.

use vstd::prelude::*;

verus! {

/// One of the two players; each owns one LED color.
#[derive(Clone, Copy, PartialEq, Eq, Structural, Debug)]
pub enum Player {
    Red,
    Blue,
}

impl Player {
    /// The opposing player.
    pub open spec fn flipped(self) -> Player {
        match self {
            Player::Red => Player::Blue,
            Player::Blue => Player::Red,
        }
    }

    /// Turns this player into the opposing one.
    pub fn flip(&mut self)
        ensures
            *final(self) == (*old(self)).flipped(),
    {
        *self = match self {
            Player::Red => Player::Blue,
            Player::Blue => Player::Red,
        }
    }

    /// Returns the opposing player, leaving this one unchanged.
    pub fn other(self) -> (r: Player)
        ensures
            r == self.flipped(),
    {
        match self {
            Player::Red => Player::Blue,
            Player::Blue => Player::Red,
        }
    }
}

} // verus!
