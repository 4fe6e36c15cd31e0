//! A complete run of the engine over the in-order completion model.
//!
//! [`run_pipelined`] drives the scheduler from first submission to drain,
//! taking the completion results as an argument: entry `i` is the result
//! code the kernel reports for block `i`. Completions are processed in
//! submission order, which is what chained submissions and a window of one
//! guarantee, and what the cooperative baselines amount to; a driver facing
//! reordered completions uses [`PipelineScheduler::complete`] directly,
//! which matches by tag. Because the results are an argument, everything
//! here is verified for every outcome the kernel could report.

use vstd::prelude::*;
use crate::config::Config;
use crate::errors::IOError;
use crate::pool::valid_layout;
use crate::ring::SubmissionRing;
use crate::scheduler::{Action, PipelineScheduler, BUFFER_ALIGN};

verus! {

/// How many of the first `n` results are non-negative.
pub open spec fn count_ok(results: Seq<i32>, n: int) -> int
    decreases n,
{
    if n <= 0 {
        0
    } else {
        count_ok(results, n - 1) + if results[n - 1] >= 0 {
            1int
        } else {
            0int
        }
    }
}

/// When every result in the prefix is non-negative, all of it counts.
pub proof fn lemma_count_ok_all(results: Seq<i32>, n: int)
    requires
        0 <= n,
        forall|k: int| 0 <= k < n ==> results[k] >= 0,
    ensures
        count_ok(results, n) == n,
    decreases n,
{
    if n > 0 {
        lemma_count_ok_all(results, n - 1);
    }
}

/// Everything one run reports.
#[derive(Debug)]
pub struct RunReport {
    /// Blocks submitted.
    pub submitted: u64,
    /// Completions with a non-negative result.
    pub ok_completed: u64,
    /// Completions with a negative result, plus requests reclaimed unrun
    /// when a run was torn down.
    pub err_completed: u64,
    /// Bytes of successfully completed writes.
    pub bytes_written: u64,
    /// High-water mark of simultaneously outstanding writes.
    pub max_outstanding: u64,
    /// Buffers obtained from the pool.
    pub buffers_allocated: u64,
    /// Buffers returned to the pool.
    pub buffers_released: u64,
    /// The correlation tags in the order they were submitted.
    pub submission_order: Vec<u64>,
}

/// A run ended by a fatal completion result, with the state at abort.
#[derive(Debug)]
pub struct RunFailure {
    /// The failed completion.
    pub error: IOError,
    /// What the run had done up to the abort; its buffers are all released.
    pub partial: RunReport,
}

/// Drive one whole run: prime the window, then keep one submission ahead of
/// each completion, then drain. Entry `i` of `results` is the completion
/// result of block `i`.
#[verifier::rlimit(60)]
pub fn run_pipelined(cfg: &Config, results: &Vec<i32>) -> (r: Result<RunReport, RunFailure>)
    requires
        cfg.wf(),
        results@.len() == cfg.count,
        cfg.count <= usize::MAX,
        valid_layout(cfg.block_size, BUFFER_ALIGN),
    ensures
        ({
            let w = cfg.strategy.spec_window_depth(cfg.count) as int;
            let n = cfg.count as int;
            &&& (r matches Ok(rep) ==> {
                &&& rep.submitted == n
                &&& rep.ok_completed == count_ok(results@, n)
                &&& rep.ok_completed + rep.err_completed == n
                &&& rep.bytes_written == cfg.block_size * count_ok(results@, n)
                &&& rep.max_outstanding == (if w <= n {
                    w
                } else {
                    n
                })
                &&& rep.buffers_allocated == n
                &&& rep.buffers_released == n
                &&& rep.submission_order@ == Seq::new(n as nat, |i: int| i as u64)
                &&& (cfg.strategy.spec_fatal_on_error() ==> rep.err_completed == 0 && forall|
                    k: int,
                |
                    0 <= k < n ==> results@[k] >= 0)
            })
            &&& (r matches Err(f) ==> {
                &&& cfg.strategy.spec_fatal_on_error()
                &&& f.error.tag < n
                &&& results@[f.error.tag as int] < 0
                &&& f.error.code == results@[f.error.tag as int]
                &&& (forall|k: int| 0 <= k < f.error.tag ==> results@[k] >= 0)
                &&& f.partial.submitted == (if f.error.tag + w <= n {
                    f.error.tag + w
                } else {
                    n
                })
                &&& f.partial.ok_completed == f.error.tag
                &&& f.partial.bytes_written == cfg.block_size * f.error.tag
                &&& f.partial.buffers_allocated == f.partial.submitted
                &&& f.partial.buffers_released == f.partial.submitted
                &&& f.partial.max_outstanding <= w
                &&& f.partial.submission_order@ == Seq::new(
                    f.partial.submitted as nat,
                    |i: int| i as u64,
                )
            })
            &&& ((forall|k: int| 0 <= k < n ==> results@[k] >= 0) ==> r is Ok)
            &&& ((forall|k: int| 0 <= k < n ==> results@[k] >= 0) ==> (r matches Ok(rep)
                ==> rep.bytes_written == cfg.total_bytes() && rep.ok_completed == n
                && rep.err_completed == 0))
            &&& (!cfg.strategy.spec_fatal_on_error() ==> r is Ok)
        }),
{
    let window = cfg.strategy.window_depth(cfg.count);
    let capacity = if cfg.strategy.uses_ring() {
        8
    } else {
        window
    };
    assert(window <= capacity);
    let ring = SubmissionRing::open(capacity);
    let mut sched = match PipelineScheduler::new(cfg, ring) {
        Ok(s) => s,
        Err(_) => unreached(),
    };
    let mut order: Vec<u64> = Vec::new();
    let ghost w = cfg.strategy.spec_window_depth(cfg.count) as int;
    loop
        invariant
            w == cfg.strategy.spec_window_depth(cfg.count) as int,
            sched.wf(),
            sched.block_size == cfg.block_size,
            sched.count == cfg.count,
            sched.window == w,
            sched.fatal_on_error == cfg.strategy.spec_fatal_on_error(),
            !sched.aborted,
            results@.len() == cfg.count,
            valid_layout(cfg.block_size, BUFFER_ALIGN),
            cfg.count <= usize::MAX,
            forall|k: int|
                0 <= k < sched.in_flight@.len() ==> (#[trigger] sched.in_flight@[k]).tag
                    == sched.completed() + k,
            sched.ok_completed == count_ok(results@, sched.completed()),
            sched.fatal_on_error ==> forall|k: int|
                0 <= k < sched.completed() ==> results@[k] >= 0,
            order@.len() == sched.submitted,
            forall|i: int| 0 <= i < order@.len() ==> order@[i] == i as u64,
            sched.completed() > 0 ==> (sched.submitted == cfg.count || sched.submitted >= w),
            sched.max_outstanding == (if w <= sched.submitted {
                w
            } else {
                sched.submitted as int
            }),
        ensures
            sched.wf(),
            !sched.aborted,
            sched.submitted == cfg.count,
            sched.outstanding() == 0,
            sched.ok_completed == count_ok(results@, sched.completed()),
            sched.fatal_on_error ==> forall|k: int|
                0 <= k < sched.completed() ==> results@[k] >= 0,
            order@.len() == sched.submitted,
            forall|i: int| 0 <= i < order@.len() ==> order@[i] == i as u64,
            sched.max_outstanding == (if w <= sched.submitted {
                w
            } else {
                sched.submitted as int
            }),
        decreases 2 * (cfg.count - sched.submitted) + sched.outstanding(),
    {
        let a = sched.next_action();
        match a {
            Action::SubmitNext => {
                let tag = match sched.submit_next() {
                    Ok(t) => t,
                    Err(_) => unreached(),
                };
                order.push(tag);
            },
            Action::WaitOne => {
                let t: u64 = sched.ok_completed + sched.err_completed;
                let res: i32 = results[t as usize];
                let ghost pre = sched;
                assert(sched.has_tag(t)) by {
                    assert(sched.in_flight@[0].tag == sched.completed() + 0);
                }
                match sched.complete(t, res) {
                    Ok(_) => {
                        proof {
                            let j = choose|j: int|
                                {
                                    &&& 0 <= j < pre.in_flight@.len()
                                    &&& pre.in_flight@[j].tag == t
                                    &&& forall|k: int|
                                        0 <= k < j ==> sched.in_flight@[k] == pre.in_flight@[k]
                                    &&& forall|k: int|
                                        j <= k < sched.in_flight@.len()
                                            ==> sched.in_flight@[k] == pre.in_flight@[k + 1]
                                };
                            assert(pre.in_flight@[j].tag == pre.completed() + j);
                            assert(j == 0);
                            assert(forall|k: int|
                                0 <= k < sched.in_flight@.len()
                                    ==> (#[trigger] sched.in_flight@[k]).tag == sched.completed()
                                    + k);
                        }
                    },
                    Err(io) => {
                        proof {
                            lemma_count_ok_all(results@, pre.completed());
                            assert(pre.next_action_spec() == Action::WaitOne);
                            assert(!(pre.submitted < cfg.count && pre.outstanding() < w));
                            assert(pre.outstanding() > 0);
                            if pre.outstanding() < w {
                                assert(pre.submitted == cfg.count);
                                assert(t + w > cfg.count);
                            } else {
                                assert(pre.submitted == t + w);
                            }
                        }
                        sched.reclaim_all();
                        let partial = RunReport {
                            submitted: sched.submitted,
                            ok_completed: sched.ok_completed,
                            err_completed: sched.err_completed,
                            bytes_written: sched.bytes_written,
                            max_outstanding: sched.max_outstanding,
                            buffers_allocated: sched.pool.allocated,
                            buffers_released: sched.pool.released,
                            submission_order: order,
                        };
                        proof {
                            assert(partial.submission_order@ =~= Seq::new(
                                partial.submitted as nat,
                                |i: int| i as u64,
                            ));
                        }
                        return Err(RunFailure { error: io, partial });
                    },
                }
            },
            Action::Done => {
                break ;
            },
        }
    }
    proof {
        if sched.fatal_on_error {
            lemma_count_ok_all(results@, sched.completed());
        }
        if forall|k: int| 0 <= k < cfg.count ==> results@[k] >= 0 {
            lemma_count_ok_all(results@, cfg.count as int);
        }
    }
    let rep = RunReport {
        submitted: sched.submitted,
        ok_completed: sched.ok_completed,
        err_completed: sched.err_completed,
        bytes_written: sched.bytes_written,
        max_outstanding: sched.max_outstanding,
        buffers_allocated: sched.pool.allocated,
        buffers_released: sched.pool.released,
        submission_order: order,
    };
    proof {
        assert(rep.submission_order@ =~= Seq::new(rep.submitted as nat, |i: int| i as u64));
    }
    Ok(rep)
}

} // verus!
