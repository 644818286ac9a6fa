use qwertdvert::lifecycle::Lifecycle;
use qwertdvert::writer::{
    writer_step, RecvOutcome, WriteAction, WriterState, WriterStep, MAX_CONSECUTIVE_FAILURES,
};

#[test]
fn a_single_failure_backs_off_and_continues() {
    let mut w = WriterState::new();
    assert_eq!(w.record_write_result(false), WriteAction::Backoff { millis: 10 });
    assert_eq!(w.consecutive_failures, 1);
}

#[test]
fn backoff_grows_with_the_count_and_is_capped() {
    let mut w = WriterState::new();
    let mut observed: Vec<u32> = Vec::new();
    for _ in 0..12 {
        match w.record_write_result(false) {
            WriteAction::Backoff { millis } => observed.push(millis),
            other => panic!("unexpected action {:?}", other),
        }
    }
    assert_eq!(
        observed,
        vec![10, 20, 30, 40, 50, 60, 70, 80, 90, 100, 100, 100]
    );
}

#[test]
fn a_success_resets_the_count() {
    let mut w = WriterState::new();
    for _ in 0..50 {
        w.record_write_result(false);
    }
    assert_eq!(w.consecutive_failures, 50);
    assert_eq!(w.record_write_result(true), WriteAction::Continue);
    assert_eq!(w.consecutive_failures, 0);
    // The next failure starts the backoff from the beginning again.
    assert_eq!(w.record_write_result(false), WriteAction::Backoff { millis: 10 });
}

#[test]
fn sustained_failure_reaches_the_ceiling_and_requests_shutdown() {
    // One hundred consecutive write failures make the writer give up and
    // set the shutdown flag, without the process crashing.
    let mut w = WriterState::new();
    let mut lifecycle = Lifecycle::new();
    let mut gave_up = false;
    for i in 1..=MAX_CONSECUTIVE_FAILURES {
        match w.record_write_result(false) {
            WriteAction::Backoff { .. } => {
                assert!(i < MAX_CONSECUTIVE_FAILURES, "gave up too late");
            }
            WriteAction::GiveUp => {
                assert_eq!(i, MAX_CONSECUTIVE_FAILURES, "gave up too early");
                lifecycle.request_shutdown();
                gave_up = true;
            }
            WriteAction::Continue => panic!("a failure cannot continue unpunished"),
        }
    }
    assert!(gave_up);
    assert!(lifecycle.shutdown_requested());
}

#[test]
fn writer_loop_decision_table() {
    assert_eq!(writer_step(RecvOutcome::Received, false), WriterStep::WriteEvent);
    assert_eq!(writer_step(RecvOutcome::Received, true), WriterStep::WriteEvent);
    assert_eq!(writer_step(RecvOutcome::TimedOut, false), WriterStep::KeepWaiting);
    assert_eq!(writer_step(RecvOutcome::TimedOut, true), WriterStep::ExitShutdown);
    assert_eq!(writer_step(RecvOutcome::Disconnected, false), WriterStep::ExitDisconnected);
    assert_eq!(writer_step(RecvOutcome::Disconnected, true), WriterStep::ExitDisconnected);
}
