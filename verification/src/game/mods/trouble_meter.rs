//! Events on the trouble meter (the wanted level).

use crate::game::bully::GameData;
use crate::memory::game_offsets::PLAYER_WANTED_LEVEL_OFFSET;
use crate::memory::memory::{player_write, GameValue, MemoryField, MemoryWrite};
use vstd::prelude::*;

verus! {

/// The full trouble meter.
pub const MAX_TROUBLE: i32 = 300;

/// Sets the trouble meter to `wanted_level`.
pub fn update_trouble(data: &GameData, wanted_level: i32) -> (w: MemoryWrite)
    ensures
        w == player_write(data.player_offset, PLAYER_WANTED_LEVEL_OFFSET, GameValue::Int(wanted_level)),
{
    MemoryWrite {
        field: MemoryField {
            pointer_address: data.player_offset,
            field_offset: PLAYER_WANTED_LEVEL_OFFSET,
        },
        value: GameValue::Int(wanted_level),
    }
}

/// Fills the trouble meter.
pub fn max_trouble(data: &GameData) -> (w: MemoryWrite)
    ensures
        w == player_write(data.player_offset, PLAYER_WANTED_LEVEL_OFFSET, GameValue::Int(MAX_TROUBLE)),
{
    update_trouble(data, MAX_TROUBLE)
}

/// Empties the trouble meter.
pub fn remove_trouble(data: &GameData) -> (w: MemoryWrite)
    ensures
        w == player_write(data.player_offset, PLAYER_WANTED_LEVEL_OFFSET, GameValue::Int(0)),
{
    update_trouble(data, 0)
}

} // verus!
