//! Aligned buffer allocation, with accounting.
//!
//! The pool hands out zero-filled fixed-size buffers and takes them back.
//! Each allocate/release pair is independent: nothing is cached between
//! calls. The pool counts what it has handed out and what has come back, so
//! that a run can show every buffer it obtained was returned exactly once.

use vstd::prelude::*;
use crate::errors::AllocationError;

verus! {

/// A byte buffer owned by exactly one holder at a time. While a write that
/// references the buffer is outstanding, the scheduler keeps the `Buffer`
/// inside the corresponding request, so no other code can mutate or free it.
pub struct Buffer {
    pub data: Vec<u8>,
}

/// Whether `a` is a power of two, stated as the standard bit test.
pub open spec fn is_power_of_two(a: u64) -> bool {
    a > 0 && a & ((a - 1) as u64) == 0
}

/// Whether the allocator can satisfy a request of `size` bytes on an
/// `align`-byte boundary: the alignment is a power of two and the size,
/// rounded up to the alignment, stays addressable.
pub open spec fn valid_layout(size: u64, align: u64) -> bool {
    &&& is_power_of_two(align)
    &&& size + align <= 0x8000_0000_0000_0000
    &&& size <= usize::MAX
}

/// A zero-filled vector of `len` bytes.
pub fn zeroed(len: usize) -> (v: Vec<u8>)
    ensures
        v@ == Seq::new(len as nat, |i: int| 0u8),
{
    let mut v: Vec<u8> = Vec::new();
    while v.len() < len
        invariant
            v@.len() <= len,
            forall|i: int| 0 <= i < v@.len() ==> v@[i] == 0u8,
        decreases len - v@.len(),
    {
        v.push(0u8);
    }
    assert(v@ =~= Seq::new(len as nat, |i: int| 0u8));
    v
}

/// The allocator facade for the kernel I/O path, with accounting.
pub struct AlignedBufferPool {
    /// Buffers handed out so far.
    pub allocated: u64,
    /// Buffers returned so far.
    pub released: u64,
}

impl AlignedBufferPool {
    /// Buffers currently live: handed out and not yet returned.
    pub open spec fn live(self) -> int {
        self.allocated - self.released
    }

    pub fn new() -> (p: Self)
        ensures
            p.allocated == 0,
            p.released == 0,
    {
        AlignedBufferPool { allocated: 0, released: 0 }
    }

    /// Allocate a zero-filled buffer of `size` bytes on an `align`-byte
    /// boundary. Fails exactly when the layout is invalid.
    pub fn allocate(&mut self, size: u64, align: u64) -> (r: Result<Buffer, AllocationError>)
        requires
            old(self).allocated < u64::MAX,
        ensures
            final(self).released == old(self).released,
            r is Ok <==> valid_layout(size, align),
            r matches Ok(buf) ==> {
                &&& final(self).allocated == old(self).allocated + 1
                &&& buf.data@ == Seq::new(size as nat, |i: int| 0u8)
            },
            r is Err ==> *final(self) == *old(self) && r == Err::<Buffer, AllocationError>(
                AllocationError::InvalidLayout,
            ),
    {
        let pow2: bool = align != 0 && align & (align - 1) == 0;
        if !(pow2 && align <= 0x8000_0000_0000_0000 && size <= 0x8000_0000_0000_0000 - align
            && size <= usize::MAX as u64) {
            return Err(AllocationError::InvalidLayout);
        }
        let data = zeroed(size as usize);
        self.allocated = self.allocated + 1;
        Ok(Buffer { data })
    }

    /// Return a buffer to the allocator. The buffer is consumed: nothing can
    /// use it after this call.
    pub fn release(&mut self, buf: Buffer)
        requires
            old(self).released < u64::MAX,
        ensures
            final(self).allocated == old(self).allocated,
            final(self).released == old(self).released + 1,
    {
        let _ = buf;
        self.released = self.released + 1;
    }
}

} // verus!
