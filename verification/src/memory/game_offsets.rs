//! Where the game keeps the player's data: offsets from the executable's base
//! address to the pointers, and from the pointed-to records to each field.

use vstd::prelude::*;

verus! {

/// From the executable's base address to the pointer to the player record.
pub const PLAYER_POINTER_OFFSET: usize = 0x1CC438C;

/// From the executable's base address to the pointer to the player's
/// position record.
pub const PLAYER_COORDINATES_POINTER_OFFSET: usize = 0x082AA68;

/// From the position record to the first coordinate.
pub const PLAYER_COORDINATES_OFFSET: usize = 0x30;

/// Fields of the player record.
pub const PLAYER_MONEY_OFFSET: usize = 0x1CA0;
pub const PLAYER_HEALTH_OFFSET: usize = 0x1CB8;
pub const PLAYER_MAX_HEALTH_OFFSET: usize = 0x1CA4;
pub const PLAYER_WANTED_LEVEL_OFFSET: usize = 0x1D40;

/// Ammunition fields of the player record.
pub const PLAYER_EGG_AMMO_OFFSET: usize = 0x378F8;
pub const PLAYER_STINK_BOMBS_AMMO_OFFSET: usize = 0x37A10;
pub const PLAYER_SPUD_GUN_AMMO_OFFSET: usize = 0x379C0;
pub const PLAYER_ROCKET_LAUNCHER_AMMO_OFFSET: usize = 0x37970;
pub const PLAYER_FIRECRACKER_AMMO_OFFSET: usize = 0x37A8;

/// The address of the pointer to the player record, for the executable
/// loaded at `base_addr`.
pub fn get_player_offset(base_addr: usize) -> (addr: usize)
    requires
        base_addr + PLAYER_POINTER_OFFSET <= usize::MAX,
    ensures
        addr == base_addr + PLAYER_POINTER_OFFSET,
{
    base_addr + PLAYER_POINTER_OFFSET
}

/// The address of the pointer to the player's position record, for the
/// executable loaded at `base_addr`.
pub fn get_player_coordinates_offset(base_addr: usize) -> (addr: usize)
    requires
        base_addr + PLAYER_COORDINATES_POINTER_OFFSET <= usize::MAX,
    ensures
        addr == base_addr + PLAYER_COORDINATES_POINTER_OFFSET,
{
    base_addr + PLAYER_COORDINATES_POINTER_OFFSET
}

/// The address of a field `data_offset` bytes into the record that a pointer
/// points to, given what reading the pointer gave: nothing when the read
/// failed.
pub fn get_offset(pointer_value: Option<usize>, data_offset: usize) -> (addr: Option<usize>)
    requires
        pointer_value matches Some(p) ==> p + data_offset <= usize::MAX,
    ensures
        addr == match pointer_value {
            Some(p) => Some((p + data_offset) as usize),
            None => None::<usize>,
        },
{
    match pointer_value {
        Some(p) => Some(p + data_offset),
        None => None,
    }
}

} // verus!
