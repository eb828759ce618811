//! Decision logic of the Bully chaos mod: the catalogue of chaos events, the
//! chat vote that picks one, the schedule of meta events, and the memory
//! writes that each event makes in the game process.

pub mod game;
pub mod random;
pub mod settings;
pub mod voting;
pub mod schedule;
pub mod memory;
pub mod windows;
pub mod messages;
