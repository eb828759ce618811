//! Events on the player's ammunition, single-precision floats held by their
//! bit patterns.

use crate::game::bully::GameData;
use crate::memory::game_offsets::{
    PLAYER_EGG_AMMO_OFFSET, PLAYER_FIRECRACKER_AMMO_OFFSET, PLAYER_ROCKET_LAUNCHER_AMMO_OFFSET,
    PLAYER_SPUD_GUN_AMMO_OFFSET, PLAYER_STINK_BOMBS_AMMO_OFFSET,
};
use crate::memory::memory::{player_write, GameValue, MemoryField, MemoryWrite};
use vstd::prelude::*;

verus! {

/// The bit pattern of no ammunition.
pub const NO_AMMO_BITS: u32 = 0;

/// The bit pattern of full ammunition (nine hundred ninety-nine rounds).
pub const FULL_AMMO_BITS: u32 = 0x4479C000;

/// The writes that set every weapon's ammunition to the float with bit
/// pattern `ammo`: eggs, stink bombs, spud gun, rocket launcher, firecrackers.
pub open spec fn all_ammo_writes(player_offset: usize, ammo: u32) -> Seq<MemoryWrite> {
    seq![
        player_write(player_offset, PLAYER_EGG_AMMO_OFFSET, GameValue::Float(ammo)),
        player_write(player_offset, PLAYER_STINK_BOMBS_AMMO_OFFSET, GameValue::Float(ammo)),
        player_write(player_offset, PLAYER_SPUD_GUN_AMMO_OFFSET, GameValue::Float(ammo)),
        player_write(player_offset, PLAYER_ROCKET_LAUNCHER_AMMO_OFFSET, GameValue::Float(ammo)),
        player_write(player_offset, PLAYER_FIRECRACKER_AMMO_OFFSET, GameValue::Float(ammo)),
    ]
}

/// Sets the ammunition field `ammo_addr` of the player record to the float
/// with bit pattern `ammo`.
pub fn update_ammo(data: &GameData, ammo: u32, ammo_addr: usize) -> (w: MemoryWrite)
    ensures
        w == player_write(data.player_offset, ammo_addr, GameValue::Float(ammo)),
{
    MemoryWrite {
        field: MemoryField { pointer_address: data.player_offset, field_offset: ammo_addr },
        value: GameValue::Float(ammo),
    }
}

fn set_all_ammo(data: &GameData, ammo: u32) -> (writes: Vec<MemoryWrite>)
    ensures
        writes@ == all_ammo_writes(data.player_offset, ammo),
{
    let mut writes: Vec<MemoryWrite> = Vec::new();
    writes.push(update_ammo(data, ammo, PLAYER_EGG_AMMO_OFFSET));
    writes.push(update_ammo(data, ammo, PLAYER_STINK_BOMBS_AMMO_OFFSET));
    writes.push(update_ammo(data, ammo, PLAYER_SPUD_GUN_AMMO_OFFSET));
    writes.push(update_ammo(data, ammo, PLAYER_ROCKET_LAUNCHER_AMMO_OFFSET));
    writes.push(update_ammo(data, ammo, PLAYER_FIRECRACKER_AMMO_OFFSET));
    assert(writes@ =~= all_ammo_writes(data.player_offset, ammo));
    writes
}

/// Removes every weapon's ammunition.
pub fn remove_all_ammo(data: &GameData) -> (writes: Vec<MemoryWrite>)
    ensures
        writes@ == all_ammo_writes(data.player_offset, NO_AMMO_BITS),
{
    set_all_ammo(data, NO_AMMO_BITS)
}

/// Fills every weapon's ammunition.
pub fn give_all_ammo(data: &GameData) -> (writes: Vec<MemoryWrite>)
    ensures
        writes@ == all_ammo_writes(data.player_offset, FULL_AMMO_BITS),
{
    set_all_ammo(data, FULL_AMMO_BITS)
}

} // verus!
