pub mod coordinates_vector;
pub mod game_offsets;
pub mod memory;
