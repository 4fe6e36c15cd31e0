//! The bounded-depth pipelined write engine.
//!
//! The scheduler decides; the process around the library performs. Each
//! [`PipelineScheduler::next_action`] names the next move (submit one block,
//! wait for one completion, or stop); [`PipelineScheduler::submit_next`]
//! allocates and stamps a buffer, assigns a fresh correlation tag and
//! records the write as outstanding; [`PipelineScheduler::complete`] takes a
//! `(tag, result)` pair observed on the ring — in any order, matched by tag,
//! not position — retires the request and releases its buffer. The defining
//! invariant: at most `window` writes are outstanding at every instant, and
//! a buffer handed to the kernel stays owned by its request until its
//! completion is observed.

use vstd::prelude::*;
use crate::block::{block_spec, fill, stamped};
use crate::config::Config;
use crate::errors::{AllocationError, ArgumentError, IOError, QueueFullFatal};
use crate::pool::{is_power_of_two, valid_layout, AlignedBufferPool, Buffer};
use crate::ring::SubmissionRing;

verus! {

/// Byte alignment of every buffer handed to the kernel I/O path.
pub const BUFFER_ALIGN: u64 = 4096;

/// One write submitted to the ring and not yet completed. The request owns
/// its buffer for exactly as long as it is outstanding.
pub struct WriteRequest {
    /// Correlation tag, echoed back by the completion; unique among
    /// currently outstanding requests.
    pub tag: u64,
    /// Index of the block this write carries.
    pub block_index: u64,
    /// Target byte offset in the file.
    pub offset: u64,
    /// Byte length of the write.
    pub length: u64,
    /// The buffer, exclusively owned while the write is in flight.
    pub buffer: Buffer,
}

/// What the driving loop should do next.
#[derive(Clone, Copy, PartialEq, Eq, Structural, Debug)]
pub enum Action {
    /// Allocate, stamp and submit the next block.
    SubmitNext,
    /// Block on the ring until one completion arrives, then report it.
    WaitOne,
    /// The run is over: everything submitted has drained, or it aborted.
    Done,
}

/// Why a submission could not be recorded.
#[derive(Clone, Copy, PartialEq, Eq, Structural, Debug)]
pub enum SubmitError {
    /// The buffer allocation failed.
    Alloc(AllocationError),
    /// The ring was full. A scheduler holding its window invariant never
    /// produces this.
    QueueFull(QueueFullFatal),
}

pub struct PipelineScheduler {
    /// Bytes per block; a whole number of 64-byte stamp chunks.
    pub block_size: u64,
    /// Number of blocks the run writes.
    pub count: u64,
    /// Bound on simultaneously outstanding writes.
    pub window: u64,
    /// Whether a negative completion result aborts the run.
    pub fatal_on_error: bool,
    /// Whether submissions are chained so completions retire in order.
    pub chained: bool,
    /// Whether block `i` targets offset `i * block_size` or the origin.
    pub advance_offset: bool,
    /// Blocks submitted so far; also the next fresh correlation tag.
    pub submitted: u64,
    /// Completions observed with a non-negative result.
    pub ok_completed: u64,
    /// Completions observed with a negative result, and requests reclaimed
    /// without a completion when a run is torn down.
    pub err_completed: u64,
    /// Bytes of successfully completed writes.
    pub bytes_written: u64,
    /// High-water mark of outstanding writes.
    pub max_outstanding: u64,
    /// Set when a fatal completion result ended the run.
    pub aborted: bool,
    /// Outstanding requests, oldest first.
    pub in_flight: Vec<WriteRequest>,
    /// The ring model the requests are outstanding on.
    pub ring: SubmissionRing,
    /// The allocator the buffers come from and return to.
    pub pool: AlignedBufferPool,
}

impl PipelineScheduler {
    /// Completions observed so far, of either sign.
    pub open spec fn completed(self) -> int {
        self.ok_completed + self.err_completed
    }

    /// Writes currently outstanding.
    pub open spec fn outstanding(self) -> int {
        self.in_flight@.len() as int
    }

    /// What holds of every outstanding request.
    pub open spec fn req_wf(self, r: WriteRequest) -> bool {
        &&& r.tag == r.block_index
        &&& r.tag < self.submitted
        &&& r.length == self.block_size
        &&& r.offset == if self.advance_offset {
            r.block_index * self.block_size
        } else {
            0
        }
        &&& r.buffer.data@ == block_spec(
            self.block_size,
            ((r.block_index * self.block_size) / 64) as u64,
        )
    }

    /// The scheduler's invariant. Central clauses: never more than `window`
    /// writes outstanding, the ring model in step with the queue, every
    /// obtained buffer either inside an outstanding request or already
    /// released, and outstanding tags strictly increasing (hence unique).
    pub open spec fn wf(self) -> bool {
        &&& Config::valid(self.block_size, self.count)
        &&& 1 <= self.window
        &&& self.window <= self.ring.capacity
        &&& self.submitted <= self.count
        &&& self.completed() <= self.submitted
        &&& self.outstanding() == self.submitted - self.completed()
        &&& self.outstanding() <= self.window
        &&& self.ring.outstanding == self.outstanding()
        &&& self.pool.allocated == self.submitted
        &&& self.pool.released == self.completed()
        &&& self.bytes_written == self.block_size * self.ok_completed
        &&& self.max_outstanding <= self.window
        &&& forall|j: int|
            0 <= j < self.in_flight@.len() ==> self.req_wf(#[trigger] self.in_flight@[j])
        &&& forall|j: int, k: int|
            0 <= j < k < self.in_flight@.len() ==> self.in_flight@[j].tag
                < self.in_flight@[k].tag
    }

    /// Whether a request with this correlation tag is outstanding.
    pub open spec fn has_tag(self, tag: u64) -> bool {
        exists|j: int| 0 <= j < self.in_flight@.len() && self.in_flight@[j].tag == tag
    }

    /// Build a scheduler for a validated configuration over a fresh ring.
    /// Fails exactly when the strategy's window depth exceeds the ring's
    /// capacity.
    pub fn new(cfg: &Config, ring: SubmissionRing) -> (r: Result<
        PipelineScheduler,
        ArgumentError,
    >)
        requires
            cfg.wf(),
            ring.outstanding == 0,
            ring.capacity > 0,
        ensures
            r is Ok <==> cfg.strategy.spec_window_depth(cfg.count) <= ring.capacity,
            r matches Err(e) ==> e == ArgumentError::WindowExceedsCapacity,
            r matches Ok(s) ==> {
                &&& s.wf()
                &&& s.block_size == cfg.block_size
                &&& s.count == cfg.count
                &&& s.window == cfg.strategy.spec_window_depth(cfg.count)
                &&& s.fatal_on_error == cfg.strategy.spec_fatal_on_error()
                &&& s.chained == cfg.strategy.spec_chained()
                &&& s.advance_offset == cfg.advance_offset
                &&& s.submitted == 0
                &&& s.ok_completed == 0
                &&& s.err_completed == 0
                &&& s.bytes_written == 0
                &&& s.max_outstanding == 0
                &&& !s.aborted
                &&& s.ring == ring
            },
    {
        let window = cfg.strategy.window_depth(cfg.count);
        if window > ring.capacity {
            return Err(ArgumentError::WindowExceedsCapacity);
        }
        Ok(
            PipelineScheduler {
                block_size: cfg.block_size,
                count: cfg.count,
                window,
                fatal_on_error: cfg.strategy.fatal_on_error(),
                chained: cfg.strategy.chained(),
                advance_offset: cfg.advance_offset,
                submitted: 0,
                ok_completed: 0,
                err_completed: 0,
                bytes_written: 0,
                max_outstanding: 0,
                aborted: false,
                in_flight: Vec::new(),
                ring,
                pool: AlignedBufferPool::new(),
            },
        )
    }

    /// The next move of the bounded-depth pipelining algorithm: submit while
    /// blocks remain and the window has room; otherwise wait for one
    /// completion; once everything drained (or the run aborted), stop.
    pub open spec fn next_action_spec(self) -> Action {
        if self.aborted {
            Action::Done
        } else if self.submitted < self.count && self.outstanding() < self.window {
            Action::SubmitNext
        } else if self.outstanding() > 0 {
            Action::WaitOne
        } else {
            Action::Done
        }
    }

    pub fn next_action(&self) -> (a: Action)
        ensures
            a == self.next_action_spec(),
    {
        if self.aborted {
            Action::Done
        } else if self.submitted < self.count && (self.in_flight.len() as u64) < self.window {
            Action::SubmitNext
        } else if self.in_flight.len() > 0 {
            Action::WaitOne
        } else {
            Action::Done
        }
    }

    /// Allocate, stamp and record the next block as submitted, under a fresh
    /// tag. The caller must have room in the window; the ring therefore has
    /// room too, and a `QueueFull` error cannot escape.
    pub fn submit_next(&mut self) -> (r: Result<u64, SubmitError>)
        requires
            old(self).wf(),
            old(self).submitted < old(self).count,
            old(self).outstanding() < old(self).window,
        ensures
            r is Ok <==> valid_layout(old(self).block_size, BUFFER_ALIGN),
            r matches Err(e) ==> e is Alloc && *final(self) == *old(self),
            r matches Ok(tag) ==> {
                &&& tag == old(self).submitted
                &&& final(self).wf()
                &&& final(self).submitted == old(self).submitted + 1
                &&& final(self).in_flight@.len() == old(self).in_flight@.len() + 1
                &&& forall|j: int|
                    0 <= j < old(self).in_flight@.len() ==> final(self).in_flight@[j] == old(
                        self,
                    ).in_flight@[j]
                &&& final(self).in_flight@.last().tag == tag
                &&& final(self).req_wf(final(self).in_flight@.last())
                &&& final(self).ok_completed == old(self).ok_completed
                &&& final(self).err_completed == old(self).err_completed
                &&& final(self).bytes_written == old(self).bytes_written
                &&& final(self).aborted == old(self).aborted
                &&& final(self).max_outstanding == if final(self).outstanding() > old(
                    self,
                ).max_outstanding {
                    final(self).outstanding()
                } else {
                    old(self).max_outstanding as int
                }
                &&& final(self).block_size == old(self).block_size
                &&& final(self).count == old(self).count
                &&& final(self).window == old(self).window
                &&& final(self).fatal_on_error == old(self).fatal_on_error
                &&& final(self).chained == old(self).chained
                &&& final(self).advance_offset == old(self).advance_offset
                &&& final(self).ring.capacity == old(self).ring.capacity
                &&& final(self).pool.allocated == old(self).pool.allocated + 1
                &&& final(self).pool.released == old(self).pool.released
            },
    {
        let i = self.submitted;
        let m = self.block_size / 64;
        proof {
            let bs = self.block_size as int;
            let cnt = self.count as int;
            let ii = i as int;
            let mm = m as int;
            assert(bs == 64 * mm);
            assert((ii + 1) * mm <= cnt * mm) by (nonlinear_arith)
                requires
                    ii + 1 <= cnt,
                    mm >= 0,
            ;
            assert(cnt * mm * 64 == cnt * bs) by (nonlinear_arith)
                requires
                    bs == 64 * mm,
            ;
            assert(cnt * mm <= cnt * mm * 64) by (nonlinear_arith)
                requires
                    cnt * mm >= 0,
            ;
            assert(ii * mm <= (ii + 1) * mm) by (nonlinear_arith)
                requires
                    mm >= 0,
                    ii >= 0,
            ;
            assert(ii * bs <= cnt * bs) by (nonlinear_arith)
                requires
                    ii <= cnt,
                    bs >= 0,
            ;
        }
        let idx: u64 = i * m;
        let buf = match self.pool.allocate(self.block_size, BUFFER_ALIGN) {
            Ok(b) => b,
            Err(e) => {
                return Err(SubmitError::Alloc(e));
            },
        };
        let mut buf = buf;
        fill(&mut buf.data, self.block_size, idx);
        proof {
            assert(stamped(Seq::new(self.block_size as nat, |j: int| 0u8), idx) == block_spec(
                self.block_size,
                idx,
            ));
            assert(idx == (i * self.block_size) / 64) by (nonlinear_arith)
                requires
                    idx == i * (self.block_size as int / 64),
                    self.block_size as int == 64 * (self.block_size as int / 64),
            ;
        }
        let offset: u64 = if self.advance_offset {
            i * self.block_size
        } else {
            0
        };
        let req = WriteRequest {
            tag: i,
            block_index: i,
            offset,
            length: self.block_size,
            buffer: buf,
        };
        self.in_flight.push(req);
        match self.ring.submit_write() {
            Ok(_) => {},
            Err(q) => {
                proof {
                    assert(false);
                }
                return Err(SubmitError::QueueFull(q));
            },
        }
        self.submitted = i + 1;
        let now_outstanding = self.in_flight.len() as u64;
        if now_outstanding > self.max_outstanding {
            self.max_outstanding = now_outstanding;
        }
        Ok(i)
    }

    /// How many requests are currently outstanding.
    pub fn outstanding_len(&self) -> (n: usize)
        ensures
            n == self.in_flight@.len(),
    {
        self.in_flight.len()
    }

    /// Borrow an outstanding request, for the driver that performs the
    /// actual kernel submission from its buffer.
    pub fn request_at(&self, j: usize) -> (r: &WriteRequest)
        requires
            j < self.in_flight@.len(),
        ensures
            *r == self.in_flight@[j as int],
    {
        &self.in_flight[j]
    }

    /// Find the queue position of an outstanding tag.
    pub fn find_tag(&self, tag: u64) -> (r: Option<usize>)
        ensures
            r matches Some(j) ==> j < self.in_flight@.len() && self.in_flight@[j as int].tag
                == tag,
            r is None ==> !self.has_tag(tag),
    {
        let mut j: usize = 0;
        while j < self.in_flight.len()
            invariant
                j <= self.in_flight@.len(),
                forall|k: int| 0 <= k < j ==> self.in_flight@[k].tag != tag,
            decreases self.in_flight@.len() - j,
        {
            if self.in_flight[j].tag == tag {
                return Some(j);
            }
            j = j + 1;
        }
        None
    }

    /// Whether a request with this tag is outstanding, for callers that
    /// receive tags from outside and must check before completing.
    pub fn contains_tag(&self, tag: u64) -> (r: bool)
        ensures
            r == self.has_tag(tag),
    {
        match self.find_tag(tag) {
            Some(j) => {
                proof {
                    assert(self.has_tag(tag)) by {
                        assert(0 <= j < self.in_flight@.len() && self.in_flight@[j as int].tag
                            == tag);
                    }
                }
                true
            },
            None => false,
        }
    }

    /// Process one completion observed on the ring: retire the request with
    /// the echoed tag — wherever it stands in the queue — and release its
    /// buffer. A non-negative result counts the block's bytes as written; a
    /// negative one fails the run when the error policy is fatal, and is
    /// otherwise only recorded.
    pub fn complete(&mut self, tag: u64, result: i32) -> (r: Result<(), IOError>)
        requires
            old(self).wf(),
            old(self).has_tag(tag),
        ensures
            final(self).wf(),
            final(self).submitted == old(self).submitted,
            final(self).in_flight@.len() == old(self).in_flight@.len() - 1,
            exists|j: int|
                {
                    &&& 0 <= j < old(self).in_flight@.len()
                    &&& old(self).in_flight@[j].tag == tag
                    &&& forall|k: int|
                        0 <= k < j ==> final(self).in_flight@[k] == old(self).in_flight@[k]
                    &&& forall|k: int|
                        j <= k < final(self).in_flight@.len() ==> final(self).in_flight@[k]
                            == old(self).in_flight@[k + 1]
                },
            final(self).ok_completed == old(self).ok_completed + if result >= 0 {
                1int
            } else {
                0int
            },
            final(self).err_completed == old(self).err_completed + if result < 0 {
                1int
            } else {
                0int
            },
            final(self).bytes_written == old(self).bytes_written + if result >= 0 {
                old(self).block_size as int
            } else {
                0int
            },
            final(self).aborted == (old(self).aborted || (result < 0
                && old(self).fatal_on_error)),
            r is Ok <==> (result >= 0 || !old(self).fatal_on_error),
            result < 0 && old(self).fatal_on_error ==> r == Err::<(), IOError>(
                IOError { tag, code: result },
            ),
            final(self).block_size == old(self).block_size,
            final(self).count == old(self).count,
            final(self).window == old(self).window,
            final(self).fatal_on_error == old(self).fatal_on_error,
            final(self).chained == old(self).chained,
            final(self).advance_offset == old(self).advance_offset,
            final(self).max_outstanding == old(self).max_outstanding,
            final(self).ring.capacity == old(self).ring.capacity,
            final(self).pool.allocated == old(self).pool.allocated,
            final(self).pool.released == old(self).pool.released + 1,
    {
        let j = match self.find_tag(tag) {
            Some(j) => j,
            None => unreached(),
        };
        let ghost prev = self.in_flight@;
        let req = self.in_flight.remove(j);
        proof {
            prev.remove_ensures(j as int);
            assert(prev.remove(j as int).len() == prev.len() - 1);
        }
        self.ring.retire_one();
        let WriteRequest { buffer, .. } = req;
        self.pool.release(buffer);
        if result >= 0 {
            proof {
                let bs = self.block_size as int;
                let okc = self.ok_completed as int;
                let cnt = self.count as int;
                assert(bs * (okc + 1) <= bs * cnt) by (nonlinear_arith)
                    requires
                        okc + 1 <= cnt,
                        bs >= 0,
                ;
                assert(bs * (okc + 1) == bs * okc + bs) by (nonlinear_arith);
            }
            self.ok_completed = self.ok_completed + 1;
            self.bytes_written = self.bytes_written + self.block_size;
            Ok(())
        } else {
            self.err_completed = self.err_completed + 1;
            if self.fatal_on_error {
                self.aborted = true;
                Err(IOError { tag, code: result })
            } else {
                Ok(())
            }
        }
    }

    /// Release every still-outstanding buffer, for a run that is being torn
    /// down after a fatal error: the ring is being dropped with it, so the
    /// reclaimed requests are recorded as failed completions.
    pub fn reclaim_all(&mut self)
        requires
            old(self).wf(),
        ensures
            final(self).wf(),
            final(self).in_flight@.len() == 0,
            final(self).pool.released == final(self).pool.allocated,
            final(self).pool.allocated == old(self).pool.allocated,
            final(self).submitted == old(self).submitted,
            final(self).ok_completed == old(self).ok_completed,
            final(self).bytes_written == old(self).bytes_written,
            final(self).max_outstanding == old(self).max_outstanding,
            final(self).aborted == old(self).aborted,
            final(self).block_size == old(self).block_size,
            final(self).count == old(self).count,
            final(self).window == old(self).window,
    {
        while self.in_flight.len() > 0
            invariant
                self.wf(),
                self.submitted == old(self).submitted,
                self.ok_completed == old(self).ok_completed,
                self.bytes_written == old(self).bytes_written,
                self.max_outstanding == old(self).max_outstanding,
                self.aborted == old(self).aborted,
                self.block_size == old(self).block_size,
                self.count == old(self).count,
                self.window == old(self).window,
                self.pool.allocated == old(self).pool.allocated,
            decreases self.in_flight@.len(),
        {
            let req = match self.in_flight.pop() {
                Some(r) => r,
                None => unreached(),
            };
            self.ring.retire_one();
            let WriteRequest { buffer, .. } = req;
            self.pool.release(buffer);
            self.err_completed = self.err_completed + 1;
        }
    }
}

/// Law: the window bound. In every well-formed scheduler state the number
/// of outstanding (submitted, not yet completed) requests is at least zero
/// and at most the window depth.
pub proof fn lemma_window_bound(s: &PipelineScheduler)
    requires
        s.wf(),
    ensures
        0 <= s.outstanding() <= s.window,
{
}

/// Law: buffer accounting. In every well-formed scheduler state, every
/// buffer obtained from the pool is either inside exactly one outstanding
/// request or has been released: live buffers and outstanding requests are
/// in one-to-one correspondence, so no buffer is released while a request
/// still references it, and none is released twice.
pub proof fn lemma_buffer_accounting(s: &PipelineScheduler)
    requires
        s.wf(),
    ensures
        s.pool.allocated - s.pool.released == s.outstanding(),
{
}

/// Law: tag uniqueness. In every well-formed scheduler state the
/// correlation tags of two distinct outstanding requests differ.
pub proof fn lemma_outstanding_tags_unique(s: &PipelineScheduler, j: int, k: int)
    requires
        s.wf(),
        0 <= j < s.in_flight@.len(),
        0 <= k < s.in_flight@.len(),
        j != k,
    ensures
        s.in_flight@[j].tag != s.in_flight@[k].tag,
{
}

} // verus!
