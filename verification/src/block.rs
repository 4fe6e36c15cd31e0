//! Deterministic block content.
//!
//! Block `i` of a run is stamped so that a later reader could check what was
//! written: every 64-byte chunk of the block carries, in its first 8 bytes,
//! the little-endian encoding of the chunk's absolute index, and every other
//! byte is left as it was (zero for a freshly allocated buffer).

use vstd::prelude::*;

verus! {

/// Byte `k` (counting from the least significant end) of the little-endian
/// encoding of `v`.
pub open spec fn le_byte(v: u64, k: int) -> u8
    recommends
        0 <= k < 8,
{
    ((v >> ((8 * k) as u64)) & 0xff) as u8
}

/// The contents of a buffer after one stamping pass with base chunk index
/// `idx`: for every complete 64-byte chunk `c`, bytes `c*64 .. c*64+8` hold
/// the little-endian encoding of `idx + c`; every other byte keeps its old
/// value.
pub open spec fn stamped(s: Seq<u8>, idx: u64) -> Seq<u8> {
    Seq::new(
        s.len(),
        |i: int|
            if i / 64 < s.len() as int / 64 && i % 64 < 8 {
                le_byte((idx + i / 64) as u64, i % 64)
            } else {
                s[i]
            },
    )
}

/// The contents of a freshly generated block of `block_size` bytes with base
/// chunk index `idx`: a zeroed buffer after one stamping pass.
pub open spec fn block_spec(block_size: u64, idx: u64) -> Seq<u8> {
    stamped(Seq::new(block_size as nat, |i: int| 0u8), idx)
}

/// Stamp every complete 64-byte chunk of `data` with its chunk identifier,
/// starting from base chunk index `idx`.
pub fn fill(data: &mut Vec<u8>, block_size: u64, idx: u64)
    requires
        old(data)@.len() == block_size,
        idx + block_size / 64 <= u64::MAX,
    ensures
        final(data)@ == stamped(old(data)@, idx),
{
    let n: usize = data.len();
    let chunks: usize = n / 64;
    let mut c: usize = 0;
    while c < chunks
        invariant
            data@.len() == n,
            n == block_size,
            chunks == n / 64,
            idx + chunks <= u64::MAX,
            c <= chunks,
            forall|i: int|
                0 <= i < n ==> data@[i] == (if i / 64 < c && i % 64 < 8 {
                    le_byte((idx + i / 64) as u64, i % 64)
                } else {
                    old(data)@[i]
                }),
        decreases chunks - c,
    {
        let v: u64 = idx + c as u64;
        let mut k: usize = 0;
        while k < 8
            invariant
                data@.len() == n,
                n == block_size,
                chunks == n / 64,
                idx + chunks <= u64::MAX,
                c < chunks,
                k <= 8,
                v == idx + c,
            forall|i: int|
                0 <= i < n ==> data@[i] == (
                    if (i / 64 < c && i % 64 < 8) || (i / 64 == c && i % 64 < k) {
                        le_byte((idx + i / 64) as u64, i % 64)
                    } else {
                        old(data)@[i]
                    }),
            decreases 8 - k,
        {
            assert(c * 64 + k < n && c * 64 <= usize::MAX - 64) by (nonlinear_arith)
                requires
                    c < chunks,
                    chunks == n / 64,
                    k < 8,
                    n <= usize::MAX,
            ;
            let pos: usize = c * 64 + k;
            let shift: u64 = 8 * (k as u64);
            assert((v >> shift) & 0xff < 256) by (bit_vector);
            let b: u8 = ((v >> shift) & 0xff) as u8;
            data.set(pos, b);
            assert((c * 64 + k) / 64 == c && (c * 64 + k) % 64 == k) by (nonlinear_arith)
                requires
                    0 <= c,
                    0 <= k < 64,
            ;
            k = k + 1;
        }
        c = c + 1;
    }
    assert(data@ =~= stamped(old(data)@, idx));
}

/// Generate the content of a block: a zeroed buffer of `block_size` bytes,
/// stamped starting from base chunk index `idx`.
pub fn make_block(block_size: u64, idx: u64) -> (data: Vec<u8>)
    requires
        block_size <= usize::MAX,
        idx + block_size / 64 <= u64::MAX,
    ensures
        data@ == block_spec(block_size, idx),
{
    let n: usize = block_size as usize;
    let mut data: Vec<u8> = Vec::new();
    while data.len() < n
        invariant
            data@.len() <= n,
            forall|i: int| 0 <= i < data@.len() ==> data@[i] == 0u8,
        decreases n - data@.len(),
    {
        data.push(0u8);
    }
    assert(data@ =~= Seq::new(block_size as nat, |i: int| 0u8));
    fill(&mut data, block_size, idx);
    data
}

/// Stamping is idempotent: a second pass with the same base chunk index
/// rewrites exactly the bytes it already wrote, with the same values, so the
/// buffer contents do not change.
pub proof fn lemma_fill_idempotent(s: Seq<u8>, idx: u64)
    ensures
        stamped(stamped(s, idx), idx) == stamped(s, idx),
{
    assert(stamped(stamped(s, idx), idx) =~= stamped(s, idx));
}

} // verus!
