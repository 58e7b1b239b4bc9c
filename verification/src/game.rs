//! The play-loop contract shared by the two game engines.

use vstd::prelude::*;
use crate::display::Frame;
use crate::position::Position;

verus! {

/// A turn-based engine driven by the main loop: each iteration hands
/// the engine the clock and the reduced button scan, and shows the
/// frame the engine returns (`None` keeps the frame last shown).
pub trait Game {
    /// The engine's internal consistency condition, kept by every step.
    spec fn inv(&self) -> bool;

    /// One iteration of the game loop at time `now` with the button
    /// reduction `press`.
    fn step(&mut self, now: u32, press: Option<Position>) -> (frame: Option<Frame>)
        requires
            old(self).inv(),
            press matches Some(p) ==> p.wf(),
        ensures
            final(self).inv(),
    ;
}

} // verus!
