//! The game process that the mod works on.

use crate::memory::game_offsets::{
    get_player_coordinates_offset, get_player_offset, PLAYER_COORDINATES_POINTER_OFFSET,
    PLAYER_POINTER_OFFSET,
};
use vstd::prelude::*;

verus! {

/// What the mod knows of the running game: its process, its window and
/// process handles (as raw handle values), and the addresses of the pointers
/// to the player records.
#[derive(Clone, Copy, PartialEq, Eq, Structural, Debug)]
pub struct GameData {
    pub process_id: u32,
    pub window_handle: usize,
    pub handle: usize,
    pub player_offset: usize,
    pub player_coordinates_offset: usize,
}

impl GameData {
    /// The game data for the process `process_id`, whose executable is
    /// loaded at `base_addr`.
    pub fn from_process(process_id: u32, window_handle: usize, handle: usize, base_addr: usize) -> (data:
        GameData)
        requires
            base_addr + PLAYER_POINTER_OFFSET <= usize::MAX,
        ensures
            data.process_id == process_id,
            data.window_handle == window_handle,
            data.handle == handle,
            data.player_offset == base_addr + PLAYER_POINTER_OFFSET,
            data.player_coordinates_offset == base_addr + PLAYER_COORDINATES_POINTER_OFFSET,
    {
        GameData {
            process_id,
            window_handle,
            handle,
            player_offset: get_player_offset(base_addr),
            player_coordinates_offset: get_player_coordinates_offset(base_addr),
        }
    }
}

} // verus!
