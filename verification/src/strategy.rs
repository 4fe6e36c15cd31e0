//! The concurrency strategies the benchmark supports, and what each one
//! means for the engine: window depth, completion ordering, error policy.

use vstd::prelude::*;
use vstd::string::StrSliceExecFns;
use crate::errors::ArgumentError;

verus! {

/// One of the supported write strategies.
#[derive(Clone, Copy, PartialEq, Eq, Structural, Debug)]
pub enum Strategy {
    /// Blocking writes, one block fully completes before the next begins.
    Sequential,
    /// All writes launched as concurrent cooperative tasks, then all joined.
    Async,
    /// Cooperative double-buffering.
    Async2,
    /// Kernel ring, one outstanding operation at a time.
    IOUring,
    /// Kernel ring, double-buffered pipeline.
    IOUring2,
    /// Kernel ring, chained submissions, windowed pipeline.
    IOUring8,
}

/// Which strategy a command-line name denotes.
pub open spec fn strategy_of_name(s: Seq<char>) -> Result<Strategy, ArgumentError> {
    if s == "seq"@ {
        Ok(Strategy::Sequential)
    } else if s == "async"@ {
        Ok(Strategy::Async)
    } else if s == "async2"@ {
        Ok(Strategy::Async2)
    } else if s == "io_uring"@ {
        Ok(Strategy::IOUring)
    } else if s == "io_uring2"@ {
        Ok(Strategy::IOUring2)
    } else if s == "io_uring8"@ {
        Ok(Strategy::IOUring8)
    } else {
        Err(ArgumentError::UnknownStrategy)
    }
}

/// Character-for-character equality of two string slices.
pub fn str_eq(a: &str, b: &str) -> (r: bool)
    ensures
        r == (a@ == b@),
{
    let an = a.unicode_len();
    let bn = b.unicode_len();
    if an != bn {
        return false;
    }
    let mut i: usize = 0;
    while i < an
        invariant
            an == a@.len(),
            an == b@.len(),
            i <= an,
            forall|j: int| 0 <= j < i ==> a@[j] == b@[j],
        decreases an - i,
    {
        let ca = a.get_char(i);
        let cb = b.get_char(i);
        if ca != cb {
            return false;
        }
        i = i + 1;
    }
    assert(a@ =~= b@);
    true
}

impl Strategy {
    /// Parse a command-line strategy name.
    pub fn parse(s: &str) -> (r: Result<Strategy, ArgumentError>)
        ensures
            r == strategy_of_name(s@),
    {
        if str_eq(s, "seq") {
            Ok(Strategy::Sequential)
        } else if str_eq(s, "async") {
            Ok(Strategy::Async)
        } else if str_eq(s, "async2") {
            Ok(Strategy::Async2)
        } else if str_eq(s, "io_uring") {
            Ok(Strategy::IOUring)
        } else if str_eq(s, "io_uring2") {
            Ok(Strategy::IOUring2)
        } else if str_eq(s, "io_uring8") {
            Ok(Strategy::IOUring8)
        } else {
            Err(ArgumentError::UnknownStrategy)
        }
    }

    /// The bound on simultaneously outstanding writes for a run of `count`
    /// blocks: the cooperative fan-out strategy keeps every block in flight
    /// at once; the double-buffered ones keep two; the rest are fixed.
    pub open spec fn spec_window_depth(self, count: u64) -> u64 {
        match self {
            Strategy::Sequential => 1u64,
            Strategy::Async => if count == 0 { 1u64 } else { count },
            Strategy::Async2 => 2u64,
            Strategy::IOUring => 1u64,
            Strategy::IOUring2 => 2u64,
            Strategy::IOUring8 => 8u64,
        }
    }

    pub fn window_depth(self, count: u64) -> (w: u64)
        ensures
            w == self.spec_window_depth(count),
            1 <= w,
    {
        match self {
            Strategy::Sequential => 1,
            Strategy::Async => if count == 0 { 1 } else { count },
            Strategy::Async2 => 2,
            Strategy::IOUring => 1,
            Strategy::IOUring2 => 2,
            Strategy::IOUring8 => 8,
        }
    }

    /// Whether a negative completion result aborts the run. The windowed
    /// 8-deep strategy only logs failures and keeps going; every other
    /// strategy treats them as fatal. This asymmetry is part of the design
    /// and deliberately not normalized.
    pub open spec fn spec_fatal_on_error(self) -> bool {
        !(self is IOUring8)
    }

    pub fn fatal_on_error(self) -> (f: bool)
        ensures
            f == self.spec_fatal_on_error(),
    {
        match self {
            Strategy::IOUring8 => false,
            _ => true,
        }
    }

    /// Whether submissions are chained (linked) so that completions are
    /// guaranteed to retire in submission order.
    pub open spec fn spec_chained(self) -> bool {
        self is IOUring8
    }

    pub fn chained(self) -> (c: bool)
        ensures
            c == self.spec_chained(),
    {
        match self {
            Strategy::IOUring8 => true,
            _ => false,
        }
    }

    /// Whether the strategy drives the kernel submission ring directly.
    pub open spec fn spec_uses_ring(self) -> bool {
        self is IOUring || self is IOUring2 || self is IOUring8
    }

    pub fn uses_ring(self) -> (u: bool)
        ensures
            u == self.spec_uses_ring(),
    {
        match self {
            Strategy::IOUring => true,
            Strategy::IOUring2 => true,
            Strategy::IOUring8 => true,
            _ => false,
        }
    }
}

} // verus!
