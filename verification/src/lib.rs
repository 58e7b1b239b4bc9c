//! Verified core of a two-player LED-matrix game console.
//!
//! The library holds everything the firmware decides: the exactly-one
//! button reduction, the per-row display multiplexing plan, and the two
//! turn-based game engines (tic-tac-toe and Hexapawn) with their win,
//! tie and move-legality rules.  Pin and timer handling is left to the
//! surrounding binary, which feeds the engines a millisecond clock value
//! and button snapshots and drives the LED matrix from the frames they
//! return.

pub mod buttons;
pub mod display;
pub mod game;
pub mod grid;
pub mod hexapawn;
pub mod millis;
pub mod player;
pub mod position;
pub mod ttt;
