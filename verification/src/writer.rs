//! The output writer's policy: tolerate transient injection failures with a
//! proportional, capped backoff, and give up — requesting process shutdown —
//! only after a fixed ceiling of consecutive failures.

use vstd::prelude::*;

verus! {

/// Consecutive write failures tolerated before the writer gives up.
pub const MAX_CONSECUTIVE_FAILURES: u32 = 100;

/// Milliseconds of backoff per consecutive failure.
pub const BACKOFF_BASE_MS: u32 = 10;

/// Backoff multiplier cap: the sleep never exceeds ten base intervals.
pub const BACKOFF_CAP_STEPS: u32 = 10;

/// How long the writer waits on the channel before re-checking shutdown,
/// in milliseconds.
pub const RECEIVE_TIMEOUT_MS: u64 = 100;

/// What the writer does after an injection attempt.
#[derive(Clone, Copy, PartialEq, Eq, Structural, Debug)]
pub enum WriteAction {
    /// The write succeeded: go on with the next event.
    Continue,
    /// The write failed but the ceiling is not reached: sleep this many
    /// milliseconds, then go on.
    Backoff { millis: u32 },
    /// The ceiling is reached: request process shutdown and stop.
    GiveUp,
}

/// The backoff after the given number of consecutive failures:
/// proportional to the count, capped.
pub open spec fn spec_backoff_ms(failures: u32) -> u32 {
    if failures < BACKOFF_CAP_STEPS {
        (BACKOFF_BASE_MS * failures) as u32
    } else {
        (BACKOFF_BASE_MS * BACKOFF_CAP_STEPS) as u32
    }
}

/// The output writer's failure accounting.
pub struct WriterState {
    pub consecutive_failures: u32,
}

impl WriterState {
    /// A writer that keeps running has not yet reached the ceiling.
    pub open spec fn wf(&self) -> bool {
        self.consecutive_failures < MAX_CONSECUTIVE_FAILURES
    }

    /// A fresh writer: no failures recorded.
    pub fn new() -> (w: Self)
        ensures
            w.wf(),
            w.consecutive_failures == 0,
    {
        WriterState { consecutive_failures: 0 }
    }

    /// Accounts for one injection attempt.  A success clears the count; a
    /// single failure never halts the pipeline — the writer backs off and
    /// continues — until the count reaches the ceiling, at which point the
    /// writer gives up.
    pub fn record_write_result(&mut self, ok: bool) -> (a: WriteAction)
        requires
            old(self).wf(),
        ensures
            ok ==> {
                &&& final(self).consecutive_failures == 0
                &&& a == WriteAction::Continue
            },
            !ok ==> final(self).consecutive_failures == old(self).consecutive_failures + 1,
            !ok && old(self).consecutive_failures + 1 < MAX_CONSECUTIVE_FAILURES ==> (a
                == WriteAction::Backoff {
                millis: spec_backoff_ms((old(self).consecutive_failures + 1) as u32),
            }),
            !ok && old(self).consecutive_failures + 1 >= MAX_CONSECUTIVE_FAILURES ==> a
                == WriteAction::GiveUp,
            a != WriteAction::GiveUp ==> final(self).wf(),
    {
        if ok {
            self.consecutive_failures = 0;
            WriteAction::Continue
        } else {
            self.consecutive_failures = self.consecutive_failures + 1;
            if self.consecutive_failures >= MAX_CONSECUTIVE_FAILURES {
                WriteAction::GiveUp
            } else {
                let steps: u32 = if self.consecutive_failures < BACKOFF_CAP_STEPS {
                    self.consecutive_failures
                } else {
                    BACKOFF_CAP_STEPS
                };
                WriteAction::Backoff { millis: BACKOFF_BASE_MS * steps }
            }
        }
    }
}

/// What the writer saw when it waited on the channel.
#[derive(Clone, Copy, PartialEq, Eq, Structural, Debug)]
pub enum RecvOutcome {
    /// An event arrived.
    Received,
    /// The bounded wait elapsed with nothing pending.
    TimedOut,
    /// Every producer is gone.
    Disconnected,
}

/// What the writer does next.
#[derive(Clone, Copy, PartialEq, Eq, Structural, Debug)]
pub enum WriterStep {
    /// Inject the received event into the output device.
    WriteEvent,
    /// Nothing arrived and no shutdown is requested: wait again.
    KeepWaiting,
    /// Shutdown was requested: stop.
    ExitShutdown,
    /// The channel is disconnected: request process shutdown and stop.
    ExitDisconnected,
}

/// The writer loop's decision table: received events are written; a timeout
/// is the moment the shutdown flag is honoured; a disconnected channel ends
/// the pipeline and escalates to process shutdown.
pub fn writer_step(outcome: RecvOutcome, shutdown: bool) -> (s: WriterStep)
    ensures
        outcome == RecvOutcome::Received ==> s == WriterStep::WriteEvent,
        outcome == RecvOutcome::TimedOut && shutdown ==> s == WriterStep::ExitShutdown,
        outcome == RecvOutcome::TimedOut && !shutdown ==> s == WriterStep::KeepWaiting,
        outcome == RecvOutcome::Disconnected ==> s == WriterStep::ExitDisconnected,
{
    match outcome {
        RecvOutcome::Received => WriterStep::WriteEvent,
        RecvOutcome::TimedOut => {
            if shutdown {
                WriterStep::ExitShutdown
            } else {
                WriterStep::KeepWaiting
            }
        },
        RecvOutcome::Disconnected => WriterStep::ExitDisconnected,
    }
}

} // verus!
