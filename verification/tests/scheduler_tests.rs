use writebench::config::Config;
use writebench::errors::QueueFullFatal;
use writebench::ring::SubmissionRing;
use writebench::scheduler::{Action, PipelineScheduler};
use writebench::strategy::Strategy;

fn new_sched(block_size: u64, count: u64, strategy: Strategy) -> PipelineScheduler {
    let cfg = Config::new(block_size, count, strategy, false).unwrap();
    let ring = SubmissionRing::open(8);
    PipelineScheduler::new(&cfg, ring).unwrap()
}

#[test]
fn window_deeper_than_ring_is_rejected() {
    let cfg = Config::new(64, 10, Strategy::IOUring8, false).unwrap();
    let ring = SubmissionRing::open(4);
    assert!(matches!(
        PipelineScheduler::new(&cfg, ring),
        Err(writebench::errors::ArgumentError::WindowExceedsCapacity)
    ));
}

#[test]
fn ring_model_rejects_overfill() {
    let mut ring = SubmissionRing::open(2);
    assert!(ring.submit_write().is_ok());
    assert!(ring.submit_write().is_ok());
    assert_eq!(ring.submit_write(), Err(QueueFullFatal));
    ring.retire_one();
    assert!(ring.submit_write().is_ok());
}

#[test]
fn actions_follow_the_algorithm() {
    let mut s = new_sched(64, 3, Strategy::IOUring2);
    assert_eq!(s.next_action(), Action::SubmitNext);
    assert_eq!(s.submit_next().unwrap(), 0);
    assert_eq!(s.next_action(), Action::SubmitNext);
    assert_eq!(s.submit_next().unwrap(), 1);
    // Window of two is full: the only move is to wait.
    assert_eq!(s.next_action(), Action::WaitOne);
    s.complete(0, 64).unwrap();
    assert_eq!(s.next_action(), Action::SubmitNext);
    assert_eq!(s.submit_next().unwrap(), 2);
    assert_eq!(s.next_action(), Action::WaitOne);
    s.complete(1, 64).unwrap();
    assert_eq!(s.next_action(), Action::WaitOne);
    s.complete(2, 64).unwrap();
    assert_eq!(s.next_action(), Action::Done);
    assert_eq!(s.bytes_written, 192);
    assert_eq!(s.pool.allocated, s.pool.released);
}

#[test]
fn completions_match_by_tag_in_any_order() {
    let mut s = new_sched(64, 2, Strategy::IOUring8);
    s.submit_next().unwrap();
    s.submit_next().unwrap();
    assert!(s.contains_tag(0));
    assert!(s.contains_tag(1));
    assert!(!s.contains_tag(2));
    // The newer request completes first.
    s.complete(1, 64).unwrap();
    assert!(!s.contains_tag(1));
    assert!(s.contains_tag(0));
    s.complete(0, 64).unwrap();
    assert_eq!(s.next_action(), Action::Done);
    assert_eq!(s.bytes_written, 128);
}

#[test]
fn submitted_request_carries_stamped_buffer() {
    let mut s = new_sched(128, 2, Strategy::IOUring2);
    s.submit_next().unwrap();
    s.submit_next().unwrap();
    assert_eq!(s.outstanding_len(), 2);
    let r0 = s.request_at(0);
    assert_eq!(r0.tag, 0);
    assert_eq!(r0.block_index, 0);
    assert_eq!(r0.length, 128);
    assert_eq!(r0.offset, 0);
    assert_eq!(&r0.buffer.data[0..8], &[0, 0, 0, 0, 0, 0, 0, 0]);
    assert_eq!(&r0.buffer.data[64..72], &[1, 0, 0, 0, 0, 0, 0, 0]);
    // Block 1 starts at absolute chunk 2 = 1 * 128 / 64.
    let r1 = s.request_at(1);
    assert_eq!(r1.tag, 1);
    assert_eq!(&r1.buffer.data[0..8], &[2, 0, 0, 0, 0, 0, 0, 0]);
    assert_eq!(&r1.buffer.data[64..72], &[3, 0, 0, 0, 0, 0, 0, 0]);
}

#[test]
fn fatal_completion_aborts_and_reclaim_balances() {
    let mut s = new_sched(64, 3, Strategy::IOUring);
    s.submit_next().unwrap();
    let err = s.complete(0, -11).unwrap_err();
    assert_eq!(err.tag, 0);
    assert_eq!(err.code, -11);
    assert_eq!(s.next_action(), Action::Done);
    s.reclaim_all();
    assert_eq!(s.pool.allocated, s.pool.released);
}

#[test]
fn non_fatal_completion_continues() {
    let mut s = new_sched(64, 2, Strategy::IOUring8);
    s.submit_next().unwrap();
    s.submit_next().unwrap();
    s.complete(0, -11).unwrap();
    s.complete(1, 64).unwrap();
    assert_eq!(s.next_action(), Action::Done);
    assert_eq!(s.bytes_written, 64);
    assert_eq!(s.ok_completed, 1);
    assert_eq!(s.err_completed, 1);
}

#[test]
fn advancing_offsets() {
    let cfg = Config::new(64, 3, Strategy::IOUring2, true).unwrap();
    let ring = SubmissionRing::open(8);
    let mut s = PipelineScheduler::new(&cfg, ring).unwrap();
    s.submit_next().unwrap();
    s.submit_next().unwrap();
    assert_eq!(s.request_at(0).offset, 0);
    assert_eq!(s.request_at(1).offset, 64);
}

#[test]
fn window_never_exceeded() {
    let mut s = new_sched(64, 50, Strategy::IOUring8);
    let mut next_done = 0u64;
    loop {
        match s.next_action() {
            Action::SubmitNext => {
                s.submit_next().unwrap();
                assert!(s.outstanding_len() <= 8);
            }
            Action::WaitOne => {
                s.complete(next_done, 64).unwrap();
                next_done += 1;
            }
            Action::Done => break,
        }
    }
    assert_eq!(s.max_outstanding, 8);
    assert_eq!(s.bytes_written, 64 * 50);
}
