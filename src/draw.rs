//! The random values that the compute route aggregates.
use rand::Rng;
use vstd::prelude::*;

verus! {

/// Every drawn value lies in `0..DRAW_BOUND`.
pub const DRAW_BOUND: u32 = 10_000;

/// Relies on rand's `thread_rng` and `Rng::gen_range`: a value of the
/// half-open range `low..high`, which must not be empty (else it panics).
#[verifier::external_body]
fn random_in_range(low: u32, high: u32) -> (r: u32)
    requires
        low < high,
    ensures
        low <= r < high,
{
    rand::thread_rng().gen_range(low..high)
}

/// `n` values, each drawn at random from `0..DRAW_BOUND`.
pub fn generate_values(n: usize) -> (r: Vec<u32>)
    ensures
        r@.len() == n,
        forall|i: int| 0 <= i < n ==> r@[i] < DRAW_BOUND,
{
    let mut values: Vec<u32> = Vec::new();
    let mut i: usize = 0;
    while i < n
        invariant
            i <= n,
            values@.len() == i,
            forall|j: int| 0 <= j < i ==> values@[j] < DRAW_BOUND,
        decreases n - i,
    {
        values.push(random_in_range(0, DRAW_BOUND));
        i = i + 1;
    }
    values
}

} // verus!
