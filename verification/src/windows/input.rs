//! The player's keys, read from key states as `GetAsyncKeyState` reports
//! them: the most significant bit is set while the key is down, the least
//! significant bit when it was pressed since the previous query.

use vstd::prelude::*;

verus! {

/// Whether a key is down: the most significant bit of its state is set.
pub open spec fn key_down(state: i16) -> bool {
    (state as u16) & 0x8000u16 != 0
}

/// Whether a key was pressed since the previous query: the least
/// significant bit of its state is set.
pub open spec fn key_pressed(state: i16) -> bool {
    state & 1i16 != 0
}

/// Whether the key with state `state` is down.
pub fn is_key_down(state: i16) -> (down: bool)
    ensures
        down == key_down(state),
        down == (state < 0),
{
    let down = (state as u16) & 0x8000u16 != 0;
    assert(((state as u16) & 0x8000u16 != 0) == (state < 0)) by (bit_vector);
    down
}

/// Whether the key with state `state` was pressed since the previous query.
pub fn is_key_pressed(state: i16) -> (pressed: bool)
    ensures
        pressed == key_pressed(state),
{
    state & 1 != 0
}

/// Whether the player is walking: one of W, A, S and D is down, given their
/// states in that order.
pub fn is_moving(w: i16, a: i16, s: i16, d: i16) -> (moving: bool)
    ensures
        moving == (key_down(w) || key_down(a) || key_down(s) || key_down(d)),
{
    is_key_down(w) || is_key_down(a) || is_key_down(s) || is_key_down(d)
}

/// Whether the player jumped: space was pressed since the previous query,
/// given its state.
pub fn has_jumped(space: i16) -> (jumped: bool)
    ensures
        jumped == key_pressed(space),
{
    is_key_pressed(space)
}

} // verus!
