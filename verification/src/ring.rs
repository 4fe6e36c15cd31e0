//! The model of the fixed-capacity kernel submission/completion ring.
//!
//! The model tracks the one fact the scheduler's safety rests on: how many
//! submitted writes the kernel still holds. The process around the library
//! keeps the real ring in step with this value, performing one kernel
//! enqueue per [`SubmissionRing::submit_write`] and draining one completion
//! per [`SubmissionRing::retire_one`]. The blocking wait itself, and the
//! `(tag, result)` pairs it yields, come from outside; the scheduler takes
//! them as arguments and is verified for every value they may have.

use vstd::prelude::*;
use crate::errors::QueueFullFatal;

verus! {

pub struct SubmissionRing {
    /// Fixed bound on simultaneously outstanding operations.
    pub capacity: u64,
    /// Operations submitted and not yet retired.
    pub outstanding: u64,
}

impl SubmissionRing {
    /// Acquire a ring sized to `capacity` outstanding operations.
    pub fn open(capacity: u64) -> (r: SubmissionRing)
        requires
            capacity > 0,
        ensures
            r.capacity == capacity,
            r.outstanding == 0,
    {
        SubmissionRing { capacity, outstanding: 0 }
    }

    /// Record one enqueued write. Fails exactly when the ring already holds
    /// `capacity` unacknowledged operations: submitting to a full ring is a
    /// programming error of the scheduler, never a recoverable condition.
    pub fn submit_write(&mut self) -> (r: Result<(), QueueFullFatal>)
        ensures
            r is Ok <==> old(self).outstanding < old(self).capacity,
            final(self).capacity == old(self).capacity,
            r is Ok ==> final(self).outstanding == old(self).outstanding + 1,
            r is Err ==> *final(self) == *old(self),
    {
        if self.outstanding < self.capacity {
            self.outstanding = self.outstanding + 1;
            Ok(())
        } else {
            Err(QueueFullFatal)
        }
    }

    /// Record one retired completion.
    pub fn retire_one(&mut self)
        requires
            old(self).outstanding > 0,
        ensures
            final(self).capacity == old(self).capacity,
            final(self).outstanding == old(self).outstanding - 1,
    {
        self.outstanding = self.outstanding - 1;
    }
}

} // verus!
