//! Work distribution for the sample fan-out: which slice of the
//! anti-aliasing samples a worker computes.

use vstd::prelude::*;

use vstd::arithmetic::div_mod::lemma_div_is_ordered;

verus! {

/// The half-open range of sample indices worker `thread_number` out of
/// `total_threads` owns: consecutive slices that exactly cover
/// `[0, total_samples)` as the worker index runs over every thread.
pub fn sample_range(thread_number: u32, total_threads: u32, total_samples: u32) -> (r: (u32, u32))
    requires
        total_threads > 0,
        thread_number < u32::MAX,
        (thread_number + 1) * total_samples <= u32::MAX,
    ensures
        r.0 == (thread_number * total_samples) as int / (total_threads as int),
        r.1 == ((thread_number + 1) * total_samples) as int / (total_threads as int),
        r.0 <= r.1,
{
    proof {
        assert(thread_number * total_samples <= (thread_number + 1) * total_samples)
            by (nonlinear_arith)
            requires
                total_samples >= 0,
                thread_number >= 0,
        ;
        lemma_div_is_ordered(
            (thread_number * total_samples) as int,
            ((thread_number + 1) * total_samples) as int,
            total_threads as int,
        );
    }
    let from = thread_number * total_samples / total_threads;
    let to = (thread_number + 1) * total_samples / total_threads;
    (from, to)
}

} // verus!
