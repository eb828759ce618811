//! Reads and writes in the game's memory, as plain values: which field, and
//! what goes into it. The caller performs them on the game process.

use vstd::prelude::*;

verus! {

/// A value stored in the game: a 32-bit integer, or a single-precision float
/// given by its IEEE 754 bit pattern.
#[derive(Clone, Copy, PartialEq, Eq, Structural, Debug)]
pub enum GameValue {
    Int(i32),
    Float(u32),
}

/// A field of a record that the game reaches through a pointer: the pointer
/// is read at `pointer_address`, and the field lies `field_offset` bytes past
/// where it points.
#[derive(Clone, Copy, PartialEq, Eq, Structural, Debug)]
pub struct MemoryField {
    pub pointer_address: usize,
    pub field_offset: usize,
}

/// A value to store into a field.
#[derive(Clone, Copy, PartialEq, Eq, Structural, Debug)]
pub struct MemoryWrite {
    pub field: MemoryField,
    pub value: GameValue,
}

/// The write of `value` into the field `field_offset` bytes into the player
/// record.
pub open spec fn player_write(player_offset: usize, field_offset: usize, value: GameValue) -> MemoryWrite {
    MemoryWrite { field: MemoryField { pointer_address: player_offset, field_offset }, value }
}

} // verus!
