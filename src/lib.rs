//! A falling-block puzzle game engine: pieces, the field, scoring, the phase
//! machine and the per-tick simulation, with the pacing decisions of its fixed-rate
//! driver. Terminal input and drawing are left to the caller.

pub mod driver;
pub mod field;
pub mod input;
pub mod level;
pub mod logic;
pub mod phase;
pub mod running;
pub mod state;
pub mod tetromino;
