use writebench::block::{fill, make_block};

#[test]
fn single_chunk_stamp() {
    let data = make_block(64, 5);
    assert_eq!(data.len(), 64);
    assert_eq!(&data[0..8], &[5, 0, 0, 0, 0, 0, 0, 0]);
    for i in 8..64 {
        assert_eq!(data[i], 0);
    }
}

#[test]
fn successive_chunks_increment() {
    let data = make_block(192, 7);
    assert_eq!(data.len(), 192);
    assert_eq!(&data[0..8], &[7, 0, 0, 0, 0, 0, 0, 0]);
    assert_eq!(&data[64..72], &[8, 0, 0, 0, 0, 0, 0, 0]);
    assert_eq!(&data[128..136], &[9, 0, 0, 0, 0, 0, 0, 0]);
    for c in 0..3 {
        for i in 8..64 {
            assert_eq!(data[c * 64 + i], 0);
        }
    }
}

#[test]
fn large_index_little_endian() {
    let data = make_block(64, 0x0102_0304_0506_0708);
    assert_eq!(&data[0..8], &[0x08, 0x07, 0x06, 0x05, 0x04, 0x03, 0x02, 0x01]);
}

#[test]
fn empty_block() {
    let data = make_block(0, 42);
    assert_eq!(data.len(), 0);
}

#[test]
fn partial_tail_left_as_is() {
    // A trailing fragment shorter than a chunk is never stamped.
    let data = make_block(100, 3);
    assert_eq!(data.len(), 100);
    assert_eq!(&data[0..8], &[3, 0, 0, 0, 0, 0, 0, 0]);
    for i in 8..100 {
        assert_eq!(data[i], 0);
    }
}

#[test]
fn fill_leaves_remainder_as_is() {
    let mut data = vec![0xAAu8; 128];
    fill(&mut data, 128, 9);
    assert_eq!(&data[0..8], &[9, 0, 0, 0, 0, 0, 0, 0]);
    assert_eq!(&data[64..72], &[10, 0, 0, 0, 0, 0, 0, 0]);
    for i in 8..64 {
        assert_eq!(data[i], 0xAA);
    }
    for i in 72..128 {
        assert_eq!(data[i], 0xAA);
    }
}

#[test]
fn fill_idempotent() {
    let mut once = vec![0u8; 256];
    fill(&mut once, 256, 11);
    let mut twice = once.clone();
    fill(&mut twice, 256, 11);
    assert_eq!(once, twice);
}

#[test]
fn make_block_deterministic() {
    let a = make_block(512, 123);
    let b = make_block(512, 123);
    assert_eq!(a, b);
}
