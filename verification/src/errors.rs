//! The error taxonomy of the benchmark.

use vstd::prelude::*;

verus! {

/// A rejected configuration: bad flags or an unknown strategy, reported
/// before any I/O is attempted.
#[derive(Clone, Copy, PartialEq, Eq, Structural, Debug)]
pub enum ArgumentError {
    /// The strategy name is not one of the recognized ones.
    UnknownStrategy,
    /// The block size is not a multiple of the 64-byte stamp chunk.
    BlockSizeNotChunkMultiple,
    /// `block_size * count` does not fit in 64 bits.
    TotalBytesOverflow,
    /// The configured window depth exceeds the ring capacity.
    WindowExceedsCapacity,
}

/// An aligned allocation the allocator cannot satisfy.
#[derive(Clone, Copy, PartialEq, Eq, Structural, Debug)]
pub enum AllocationError {
    /// The (size, alignment) pair is invalid: the alignment is not a power
    /// of two, or the rounded-up size is not addressable.
    InvalidLayout,
}

/// The scheduler attempted to submit to a ring already holding `capacity`
/// unacknowledged operations. This is a programming error of the caller,
/// never a recoverable condition; a correct scheduler never produces it.
#[derive(Clone, Copy, PartialEq, Eq, Structural, Debug)]
pub struct QueueFullFatal;

/// A write completion reported failure: the kernel echoed the correlation
/// tag of the request together with a negative result code.
#[derive(Clone, Copy, PartialEq, Eq, Structural, Debug)]
pub struct IOError {
    /// Correlation tag of the failed write.
    pub tag: u64,
    /// The negative result code the completion carried.
    pub code: i32,
}

} // verus!
