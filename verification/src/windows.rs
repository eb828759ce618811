pub mod injection;
pub mod input;
pub mod processes;
