pub mod bully;
pub mod events;
pub mod mods;
