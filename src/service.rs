//! The two routes of the service: the static page, and the computation that
//! the compute route runs and reports.
use crate::aggregate::{aggregate, even_square_sum, lemma_draw_sum_bound};
use crate::draw::{generate_values, DRAW_BOUND};
use crate::text::{render_response, response_text};
use std::time::{Duration, Instant};
use vstd::prelude::*;

verus! {

/// `std::time::Instant`, opaque here: it only marks when the timed span began.
#[verifier::external_type_specification]
#[verifier::external_body]
pub struct ExInstant(Instant);

/// The largest term that a drawn value can add to the sum: 9998 squared.
pub const MAX_TERM: u64 = 99_960_004;

/// What the compute route measured: the count, the sum of the squares of the
/// even values drawn, and the time the aggregation took.
pub struct ComputeReport {
    pub size: usize,
    pub sum: u64,
    pub elapsed_secs: u64,
    pub elapsed_nanos: u32,
}

impl ComputeReport {
    /// The elapsed time is written as seconds and a fraction below one second.
    pub open spec fn wf(&self) -> bool {
        self.elapsed_nanos < 1_000_000_000
    }
}

/// What `{:.2?}` writes for a duration of `secs` seconds and `nanos`
/// nanoseconds (two decimals, with the unit scaled to s, ms, µs or ns).
pub uninterp spec fn duration_debug_text(secs: nat, nanos: nat) -> Seq<char>;

/// Relies on `Instant::now`: the current instant of the monotonic clock.
pub assume_specification[ Instant::now ]() -> Instant;

/// Relies on `Instant::elapsed`: the time since an instant.
pub assume_specification[ Instant::elapsed ](start: &Instant) -> Duration;

/// Relies on `Duration::as_secs`: the whole seconds of a duration.
pub assume_specification[ Duration::as_secs ](d: &Duration) -> u64;

/// Relies on `Duration::subsec_nanos`: the fraction of a second of a
/// duration, in nanoseconds, which its documentation puts below 10^9.
pub assume_specification[ Duration::subsec_nanos ](d: &Duration) -> (r: u32)
    ensures
        r < 1_000_000_000,
;

/// Relies on the `Debug` format of `Duration` at precision 2: its text
/// depends on the duration alone. `Duration::new` panics only when the
/// nanoseconds carry past the largest second count, which `nanos < 10^9` rules out.
#[verifier::external_body]
fn duration_text(secs: u64, nanos: u32) -> (r: String)
    requires
        nanos < 1_000_000_000,
    ensures
        r@ == duration_debug_text(secs as nat, nanos as nat),
{
    format!("{:.2?}", Duration::new(secs, nanos))
}

/// Draws `size` values, then sums the squares of the even ones on all
/// workers, timing the summation only. The sum is that of some `size` values
/// drawn from `0..DRAW_BOUND`.
pub fn compute(size: usize) -> (r: ComputeReport)
    requires
        size * MAX_TERM <= u64::MAX,
    ensures
        r.wf(),
        r.size == size,
        r.sum <= size * MAX_TERM,
        exists|data: Seq<u32>|
            {
                &&& data.len() == size
                &&& forall|i: int| 0 <= i < data.len() ==> data[i] < DRAW_BOUND
                &&& r.sum == even_square_sum(data)
            },
{
    let data = generate_values(size);
    proof {
        lemma_draw_sum_bound(data@);
    }
    let start = Instant::now();
    let sum = aggregate(data.as_slice());
    let elapsed = start.elapsed();
    ComputeReport { size, sum, elapsed_secs: elapsed.as_secs(), elapsed_nanos: elapsed.subsec_nanos() }
}

impl ComputeReport {
    /// The text of the compute route's answer for this report.
    pub fn render(&self) -> (r: String)
        requires
            self.wf(),
        ensures
            r@ == response_text(
                self.size as nat,
                self.sum as nat,
                duration_debug_text(self.elapsed_secs as nat, self.elapsed_nanos as nat),
            ),
    {
        let time = duration_text(self.elapsed_secs, self.elapsed_nanos);
        render_response(self.size, self.sum, time.as_str())
    }
}

} // verus!
