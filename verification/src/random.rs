//! The random draws that the mod makes, taken from the `rand` crate.

use rand::seq::IteratorRandom;
use vstd::prelude::*;

verus! {

/// The thread-local generator of `rand`.
#[verifier::external_type_specification]
#[verifier::external_body]
pub struct ExThreadRng(rand::rngs::ThreadRng);

/// Calls `rand::rng`, which hands out the thread-local generator. Nothing is
/// claimed of it: it is only passed on to `choose_item`.
#[verifier::external_body]
pub(crate) fn thread_rng() -> rand::rngs::ThreadRng {
    rand::rng()
}

/// Calls `rand::seq::IteratorRandom::choose` on the items of `items` (copied
/// out of the borrowed iterator). Claimed, as its documentation states: the
/// result is `None` exactly when `items` is empty, and otherwise one of the
/// items. Which item comes back is left open: it depends on the generator.
#[verifier::external_body]
pub(crate) fn choose_item<T: Copy>(items: &Vec<T>, rng: &mut rand::rngs::ThreadRng) -> (picked:
    Option<T>)
    ensures
        picked is None <==> items@.len() == 0,
        picked matches Some(x) ==> items@.contains(x),
{
    items.iter().choose(rng).copied()
}

/// Calls `rand::random_range` on the half-open range `low..high` of `u64`.
/// Claimed, as its documentation states: the value lies in the range. It
/// panics on an empty range, which `requires` leaves out. Which value comes
/// back is left open: it depends on the generator.
#[verifier::external_body]
pub(crate) fn random_in_range(low: u64, high: u64) -> (value: u64)
    requires
        low < high,
    ensures
        low <= value < high,
{
    rand::random_range(low..high)
}

} // verus!
