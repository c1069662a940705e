use std::sync::atomic::{AtomicUsize, Ordering};

use consensus::engine::ConsensusEngine;
use consensus::machine::Machine;
use consensus::pipeline::{run_phase, verify_header, Phase, Progress};

struct Chain;

impl Machine for Chain {
    type Header = u64;
    type LiveBlock = u64;
    type Error = &'static str;
}

/// An engine that counts the calls of each phase and fails the phases it is
/// told to fail.
struct Counting {
    chain: Chain,
    fail: [bool; 4],
    calls: [AtomicUsize; 4],
}

impl Counting {
    fn failing(fail: [bool; 4]) -> Counting {
        Counting {
            chain: Chain,
            fail,
            calls: [AtomicUsize::new(0), AtomicUsize::new(0), AtomicUsize::new(0), AtomicUsize::new(0)],
        }
    }

    fn phase(&self, index: usize, error: &'static str) -> Result<(), &'static str> {
        self.calls[index].fetch_add(1, Ordering::SeqCst);
        if self.fail[index] {
            Err(error)
        } else {
            Ok(())
        }
    }

    fn calls(&self) -> [usize; 4] {
        [
            self.calls[0].load(Ordering::SeqCst),
            self.calls[1].load(Ordering::SeqCst),
            self.calls[2].load(Ordering::SeqCst),
            self.calls[3].load(Ordering::SeqCst),
        ]
    }
}

impl ConsensusEngine<Chain> for Counting {
    fn name(&self) -> &str {
        "counting"
    }

    fn machine(&self) -> &Chain {
        &self.chain
    }

    fn verify_local_seal(&self, _header: &u64) -> Result<(), &'static str> {
        Ok(())
    }

    fn verify_block_basic(&self, _header: &u64) -> Result<(), &'static str> {
        self.phase(0, "basic")
    }

    fn verify_block_unordered(&self, _header: &u64) -> Result<(), &'static str> {
        self.phase(1, "unordered")
    }

    fn verify_block_family(&self, header: &u64, parent: &u64) -> Result<(), &'static str> {
        assert_eq!(*parent + 1, *header);
        self.phase(2, "family")
    }

    fn verify_block_external(&self, _header: &u64) -> Result<(), &'static str> {
        self.phase(3, "external")
    }
}

#[test]
fn all_phases_run_once_in_order_when_they_pass() {
    let engine = Counting::failing([false; 4]);
    assert_eq!(verify_header(&engine, &11, &10), Progress::Accepted);
    assert_eq!(engine.calls(), [1, 1, 1, 1]);
}

#[test]
fn basic_failure_stops_the_pipeline() {
    let engine = Counting::failing([true, false, false, false]);
    assert_eq!(verify_header(&engine, &11, &10), Progress::Rejected(Phase::Basic, "basic"));
    assert_eq!(engine.calls(), [1, 0, 0, 0]);
}

#[test]
fn basic_failure_hides_later_failures() {
    let engine = Counting::failing([true, true, true, true]);
    assert_eq!(verify_header(&engine, &11, &10), Progress::Rejected(Phase::Basic, "basic"));
    assert_eq!(engine.calls(), [1, 0, 0, 0]);
}

#[test]
fn unordered_failure_stops_before_family() {
    let engine = Counting::failing([false, true, false, true]);
    assert_eq!(
        verify_header(&engine, &11, &10),
        Progress::Rejected(Phase::Unordered, "unordered")
    );
    assert_eq!(engine.calls(), [1, 1, 0, 0]);
}

#[test]
fn family_failure_stops_before_external() {
    let engine = Counting::failing([false, false, true, false]);
    assert_eq!(verify_header(&engine, &11, &10), Progress::Rejected(Phase::Family, "family"));
    assert_eq!(engine.calls(), [1, 1, 1, 0]);
}

#[test]
fn external_failure_rejects_at_the_end() {
    let engine = Counting::failing([false, false, false, true]);
    assert_eq!(
        verify_header(&engine, &11, &10),
        Progress::Rejected(Phase::External, "external")
    );
    assert_eq!(engine.calls(), [1, 1, 1, 1]);
}

#[test]
fn run_phase_invokes_the_named_phase_only() {
    let engine = Counting::failing([false, false, false, true]);
    assert_eq!(run_phase(&engine, Phase::Family, &11, &10), Ok(()));
    assert_eq!(engine.calls(), [0, 0, 1, 0]);
    assert_eq!(run_phase(&engine, Phase::External, &11, &10), Err("external"));
    assert_eq!(engine.calls(), [0, 0, 1, 1]);
    assert_eq!(run_phase(&engine, Phase::Basic, &11, &10), Ok(()));
    assert_eq!(run_phase(&engine, Phase::Unordered, &11, &10), Ok(()));
    assert_eq!(engine.calls(), [1, 1, 1, 1]);
}

#[test]
fn phases_follow_each_other() {
    assert_eq!(Phase::Basic.next(), Some(Phase::Unordered));
    assert_eq!(Phase::Unordered.next(), Some(Phase::Family));
    assert_eq!(Phase::Family.next(), Some(Phase::External));
    assert_eq!(Phase::External.next(), None);
}

#[test]
fn progress_starts_with_the_basic_phase() {
    let state: Progress<()> = Progress::start();
    assert_eq!(state, Progress::Pending(Phase::Basic));
    assert_eq!(state.next_phase(), Some(Phase::Basic));
}

#[test]
fn progress_walks_through_the_phases() {
    let state: Progress<u8> = Progress::start();
    let state = state.record(Ok(()));
    assert_eq!(state, Progress::Pending(Phase::Unordered));
    let state = state.record(Ok(()));
    assert_eq!(state, Progress::Pending(Phase::Family));
    let state = state.record(Ok(()));
    assert_eq!(state, Progress::Pending(Phase::External));
    let state = state.record(Ok(()));
    assert_eq!(state, Progress::Accepted);
    assert_eq!(state.next_phase(), None);
}

#[test]
fn finished_progress_ignores_later_outcomes() {
    let rejected: Progress<u8> = Progress::Pending(Phase::Family).record(Err(7));
    assert_eq!(rejected, Progress::Rejected(Phase::Family, 7));
    assert_eq!(rejected.next_phase(), None);
    let rejected = rejected.record(Ok(()));
    assert_eq!(rejected, Progress::Rejected(Phase::Family, 7));
    let rejected = rejected.record(Err(9));
    assert_eq!(rejected, Progress::Rejected(Phase::Family, 7));
    let accepted: Progress<u8> = Progress::Accepted.record(Err(1));
    assert_eq!(accepted, Progress::Accepted);
}
