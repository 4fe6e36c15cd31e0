//! Validated run configuration.

use vstd::prelude::*;
use crate::errors::ArgumentError;
use crate::strategy::Strategy;

verus! {

/// A validated benchmark configuration. Values are checked once, by
/// [`Config::new`]; everything downstream relies on [`Config::wf`].
#[derive(Clone, Copy, PartialEq, Eq, Structural, Debug)]
pub struct Config {
    /// Bytes per block; a whole number of 64-byte stamp chunks.
    pub block_size: u64,
    /// Number of blocks to write.
    pub count: u64,
    /// The concurrency strategy of the run.
    pub strategy: Strategy,
    /// Whether block `i` targets offset `i * block_size` (growing the file)
    /// or every block targets the origin (measuring pure write-path cost).
    pub advance_offset: bool,
}

impl Config {
    /// What validation enforces: stamping needs whole 64-byte chunks, and
    /// the total byte count of the run must fit in 64 bits.
    pub open spec fn valid(block_size: u64, count: u64) -> bool {
        &&& block_size % 64 == 0
        &&& block_size * count <= u64::MAX
    }

    pub open spec fn wf(self) -> bool {
        Self::valid(self.block_size, self.count)
    }

    /// Total bytes a fully successful run writes.
    pub open spec fn total_bytes(self) -> int {
        self.block_size * self.count
    }

    /// Validate a configuration. Succeeds exactly when the block size is a
    /// whole number of 64-byte chunks and the run total fits in 64 bits.
    pub fn new(block_size: u64, count: u64, strategy: Strategy, advance_offset: bool) -> (r:
        Result<Config, ArgumentError>)
        ensures
            r is Ok <==> Self::valid(block_size, count),
            r matches Ok(c) ==> c == (Config { block_size, count, strategy, advance_offset })
                && c.wf(),
            block_size % 64 != 0 ==> r == Err::<Config, ArgumentError>(
                ArgumentError::BlockSizeNotChunkMultiple,
            ),
            block_size % 64 == 0 && block_size * count > u64::MAX ==> r == Err::<
                Config,
                ArgumentError,
            >(ArgumentError::TotalBytesOverflow),
    {
        if block_size % 64 != 0 {
            return Err(ArgumentError::BlockSizeNotChunkMultiple);
        }
        match block_size.checked_mul(count) {
            Some(_) => Ok(Config { block_size, count, strategy, advance_offset }),
            None => Err(ArgumentError::TotalBytesOverflow),
        }
    }
}

} // verus!
