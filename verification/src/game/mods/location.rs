//! Events that move the player.

use crate::game::bully::GameData;
use crate::memory::coordinates_vector::{coordinate_writes, CoordinateBits};
use crate::memory::memory::MemoryWrite;
use vstd::prelude::*;

verus! {

/// The dorms, where "home sweet home" takes the player.
pub open spec fn dorms() -> CoordinateBits {
    CoordinateBits { x: 0x438787C7, y: 0xC2E62C60, z: 0x4132F41D }
}

/// The bit pattern of the height below the map where "hell" takes the player
/// (fifty units below zero).
pub const HELL_Z_BITS: u32 = 0xC2480000;

/// Teleports the player back to the dorms.
pub fn teleport_dorms(data: &GameData) -> (writes: Vec<MemoryWrite>)
    ensures
        writes@ == coordinate_writes(*data, dorms()),
{
    CoordinateBits::write(data, CoordinateBits { x: 0x438787C7, y: 0xC2E62C60, z: 0x4132F41D })
}

/// Teleports the player from `current`, the position that was read, to
/// beneath the map: the same x and y, the height of hell.
pub fn hell_tp(data: &GameData, current: CoordinateBits) -> (writes: Vec<MemoryWrite>)
    ensures
        writes@ == coordinate_writes(*data, CoordinateBits { z: HELL_Z_BITS, ..current }),
{
    let mut target = current;
    target.z = HELL_Z_BITS;
    CoordinateBits::write(data, target)
}

/// The delay before the first teleport of "sonar Sisyphus", in milliseconds.
pub const SONAR_START_DELAY_MS: u64 = 100;

/// The delay of "sonar Sisyphus" after `delay_ms`: below one second it grows
/// by a fifth, at least 50 and at most 1000 milliseconds; from one second on
/// it stays.
pub open spec fn next_sonar_delay_spec(delay_ms: u64) -> u64 {
    if delay_ms < 1000 {
        let step = if delay_ms / 5 < 50 {
            50
        } else if delay_ms / 5 > 1000 {
            1000
        } else {
            delay_ms / 5
        };
        (delay_ms + step) as u64
    } else {
        delay_ms
    }
}

/// The delay of "sonar Sisyphus" after `delay_ms`.
pub fn next_sonar_delay(delay_ms: u64) -> (next: u64)
    ensures
        next == next_sonar_delay_spec(delay_ms),
        delay_ms < 1000 ==> delay_ms + 50 <= next < 2000,
{
    if delay_ms < 1000 {
        let fifth = delay_ms / 5;
        let step = if fifth < 50 {
            50
        } else if fifth > 1000 {
            1000
        } else {
            fifth
        };
        delay_ms + step
    } else {
        delay_ms
    }
}

/// `current` with the coordinate `axis` (0 for x, 1 for y, 2 for z) taken
/// from `start`: the position that "disabled movement axis" writes back.
pub fn pin_axis(current: CoordinateBits, start: CoordinateBits, axis: u64) -> (pinned: CoordinateBits)
    requires
        axis < 3,
    ensures
        pinned == (if axis == 0 {
            CoordinateBits { x: start.x, ..current }
        } else if axis == 1 {
            CoordinateBits { y: start.y, ..current }
        } else {
            CoordinateBits { z: start.z, ..current }
        }),
{
    let mut pinned = current;
    if axis == 0 {
        pinned.x = start.x;
    } else if axis == 1 {
        pinned.y = start.y;
    } else {
        pinned.z = start.z;
    }
    pinned
}

} // verus!
