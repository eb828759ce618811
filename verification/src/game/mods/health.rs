//! Events on the player's health, a single-precision float held by its bit
//! pattern.

use crate::game::bully::GameData;
use crate::memory::game_offsets::{PLAYER_HEALTH_OFFSET, PLAYER_MAX_HEALTH_OFFSET};
use crate::memory::memory::{player_write, GameValue, MemoryField, MemoryWrite};
use vstd::prelude::*;

verus! {

/// The bit pattern of one health point.
pub const ONE_HEALTH_BITS: u32 = 0x3F800000;

/// The bit pattern of zero health.
pub const ZERO_HEALTH_BITS: u32 = 0;

/// The bit pattern of the maximum health assumed when it cannot be read
/// (two hundred points).
pub const DEFAULT_MAX_HEALTH_BITS: u32 = 0x43480000;

/// The bit pattern of the health given to keep the player alive through a
/// stunt (nine hundred ninety-nine thousand nine hundred ninety-nine points).
pub const STUNT_HEALTH_BITS: u32 = 0x497423F0;

/// Sets the player's health to the float with bit pattern `health`.
pub fn update_health(data: &GameData, health: u32) -> (w: MemoryWrite)
    ensures
        w == player_write(data.player_offset, PLAYER_HEALTH_OFFSET, GameValue::Float(health)),
{
    MemoryWrite {
        field: MemoryField { pointer_address: data.player_offset, field_offset: PLAYER_HEALTH_OFFSET },
        value: GameValue::Float(health),
    }
}

/// Where the player's health is read from.
pub fn get_health(data: &GameData) -> (f: MemoryField)
    ensures
        f == (MemoryField { pointer_address: data.player_offset, field_offset: PLAYER_HEALTH_OFFSET }),
{
    MemoryField { pointer_address: data.player_offset, field_offset: PLAYER_HEALTH_OFFSET }
}

/// Where the player's maximum health is read from.
pub fn max_health_field(data: &GameData) -> (f: MemoryField)
    ensures
        f == (MemoryField {
            pointer_address: data.player_offset,
            field_offset: PLAYER_MAX_HEALTH_OFFSET,
        }),
{
    MemoryField { pointer_address: data.player_offset, field_offset: PLAYER_MAX_HEALTH_OFFSET }
}

/// Restores the player's health to `max_health`, the bit pattern of the
/// maximum health.
pub fn heal(data: &GameData, max_health: u32) -> (w: MemoryWrite)
    ensures
        w == player_write(data.player_offset, PLAYER_HEALTH_OFFSET, GameValue::Float(max_health)),
{
    update_health(data, max_health)
}

/// Leaves the player one health point.
pub fn no_health(data: &GameData) -> (w: MemoryWrite)
    ensures
        w == player_write(data.player_offset, PLAYER_HEALTH_OFFSET, GameValue::Float(ONE_HEALTH_BITS)),
{
    update_health(data, ONE_HEALTH_BITS)
}

/// Takes all the player's health.
pub fn suicide(data: &GameData) -> (w: MemoryWrite)
    ensures
        w == player_write(data.player_offset, PLAYER_HEALTH_OFFSET, GameValue::Float(ZERO_HEALTH_BITS)),
{
    update_health(data, ZERO_HEALTH_BITS)
}

} // verus!
