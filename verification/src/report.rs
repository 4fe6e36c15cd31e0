//! Throughput reporting.
//!
//! The timer itself lives outside the library; it hands in the elapsed time
//! as whole nanoseconds, and the library does the arithmetic.

use vstd::prelude::*;

verus! {

/// The outcome of one timed run, created after all outstanding requests
/// have drained.
#[derive(Clone, Copy, PartialEq, Eq, Structural, Debug)]
pub struct BenchmarkResult {
    /// Bytes whose writes completed successfully.
    pub bytes_written: u64,
    /// Wall time around the whole submit/drain sequence, in nanoseconds.
    pub elapsed_nanos: u64,
}

impl BenchmarkResult {
    /// Throughput in bytes per second. When the measured time is below the
    /// clock granularity the division is guarded and `None` is reported as
    /// the sentinel, rather than an infinite rate or an error.
    pub fn throughput_bytes_per_sec(&self) -> (r: Option<u128>)
        ensures
            self.elapsed_nanos == 0 <==> r is None,
            self.elapsed_nanos > 0 ==> r == Some(
                ((self.bytes_written * 1_000_000_000) / (self.elapsed_nanos as int)) as u128,
            ),
    {
        if self.elapsed_nanos == 0 {
            None
        } else {
            let scaled: u128 = (self.bytes_written as u128) * 1_000_000_000u128;
            Some(scaled / (self.elapsed_nanos as u128))
        }
    }
}

} // verus!
