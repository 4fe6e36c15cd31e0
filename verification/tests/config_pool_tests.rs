use writebench::config::Config;
use writebench::errors::{AllocationError, ArgumentError};
use writebench::pool::AlignedBufferPool;
use writebench::strategy::Strategy;

#[test]
fn config_accepts_chunk_multiples() {
    let cfg = Config::new(128, 3, Strategy::Sequential, false).unwrap();
    assert_eq!(cfg.block_size, 128);
    assert_eq!(cfg.count, 3);
    assert_eq!(cfg.strategy, Strategy::Sequential);
    assert!(!cfg.advance_offset);
}

#[test]
fn config_rejects_non_chunk_multiple() {
    // A block size that is not a whole number of stamp chunks is rejected
    // at configuration time, before any I/O.
    assert_eq!(
        Config::new(32, 1, Strategy::Sequential, false),
        Err(ArgumentError::BlockSizeNotChunkMultiple)
    );
    assert_eq!(
        Config::new(65, 1, Strategy::Async, false),
        Err(ArgumentError::BlockSizeNotChunkMultiple)
    );
}

#[test]
fn config_rejects_total_overflow() {
    assert_eq!(
        Config::new(1 << 40, 1 << 40, Strategy::IOUring8, false),
        Err(ArgumentError::TotalBytesOverflow)
    );
}

#[test]
fn config_zero_count_is_valid() {
    let cfg = Config::new(64, 0, Strategy::IOUring, false).unwrap();
    assert_eq!(cfg.count, 0);
}

#[test]
fn pool_allocate_and_release() {
    let mut pool = AlignedBufferPool::new();
    assert_eq!(pool.allocated, 0);
    assert_eq!(pool.released, 0);
    let buf = pool.allocate(256, 4096).unwrap();
    assert_eq!(buf.data.len(), 256);
    assert!(buf.data.iter().all(|b| *b == 0));
    assert_eq!(pool.allocated, 1);
    pool.release(buf);
    assert_eq!(pool.released, 1);
}

#[test]
fn pool_rejects_bad_alignment() {
    let mut pool = AlignedBufferPool::new();
    assert!(matches!(pool.allocate(64, 0), Err(AllocationError::InvalidLayout)));
    assert!(matches!(pool.allocate(64, 3), Err(AllocationError::InvalidLayout)));
    assert!(matches!(pool.allocate(64, 4095), Err(AllocationError::InvalidLayout)));
    assert_eq!(pool.allocated, 0);
}

#[test]
fn pool_rejects_unaddressable_size() {
    let mut pool = AlignedBufferPool::new();
    assert!(matches!(
        pool.allocate(u64::MAX - 4096, 4096),
        Err(AllocationError::InvalidLayout)
    ));
}
