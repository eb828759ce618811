//! The player's position, three single-precision coordinates held by their
//! IEEE 754 bit patterns.

use crate::game::bully::GameData;
use crate::memory::game_offsets::PLAYER_COORDINATES_OFFSET;
use crate::memory::memory::{GameValue, MemoryField, MemoryWrite};
use vstd::prelude::*;

verus! {

/// A position: the bit patterns of the x, y and z coordinates.
#[derive(Clone, Copy, PartialEq, Eq, Structural, Debug)]
pub struct CoordinateBits {
    pub x: u32,
    pub y: u32,
    pub z: u32,
}

/// Bytes from the first coordinate to the y and z coordinates.
pub const Y_PADDING: usize = 0x04;
pub const Z_PADDING: usize = 0x08;

/// The field of the coordinate `padding` bytes past the first.
pub open spec fn coordinate_field_spec(data: GameData, padding: usize) -> MemoryField {
    MemoryField {
        pointer_address: data.player_coordinates_offset,
        field_offset: (PLAYER_COORDINATES_OFFSET + padding) as usize,
    }
}

/// The writes that move the player to `c`: x, then y, then z.
pub open spec fn coordinate_writes(data: GameData, c: CoordinateBits) -> Seq<MemoryWrite> {
    seq![
        MemoryWrite { field: coordinate_field_spec(data, 0), value: GameValue::Float(c.x) },
        MemoryWrite { field: coordinate_field_spec(data, Y_PADDING), value: GameValue::Float(c.y) },
        MemoryWrite { field: coordinate_field_spec(data, Z_PADDING), value: GameValue::Float(c.z) },
    ]
}

impl CoordinateBits {
    /// The origin: every coordinate zero.
    pub fn empty() -> (c: CoordinateBits)
        ensures
            c == (CoordinateBits { x: 0, y: 0, z: 0 }),
    {
        CoordinateBits { x: 0, y: 0, z: 0 }
    }

    /// The field of the coordinate `padding` bytes past the first one.
    pub fn coordinate_field(data: &GameData, padding: usize) -> (f: MemoryField)
        requires
            PLAYER_COORDINATES_OFFSET + padding <= usize::MAX,
        ensures
            f == coordinate_field_spec(*data, padding),
    {
        MemoryField {
            pointer_address: data.player_coordinates_offset,
            field_offset: PLAYER_COORDINATES_OFFSET + padding,
        }
    }

    /// The writes that move the player to `coordinates`.
    pub fn write(data: &GameData, coordinates: CoordinateBits) -> (writes: Vec<MemoryWrite>)
        ensures
            writes@ == coordinate_writes(*data, coordinates),
    {
        let mut writes: Vec<MemoryWrite> = Vec::new();
        writes.push(
            MemoryWrite {
                field: CoordinateBits::coordinate_field(data, 0),
                value: GameValue::Float(coordinates.x),
            },
        );
        writes.push(
            MemoryWrite {
                field: CoordinateBits::coordinate_field(data, Y_PADDING),
                value: GameValue::Float(coordinates.y),
            },
        );
        writes.push(
            MemoryWrite {
                field: CoordinateBits::coordinate_field(data, Z_PADDING),
                value: GameValue::Float(coordinates.z),
            },
        );
        assert(writes@ =~= coordinate_writes(*data, coordinates));
        writes
    }
}

} // verus!
