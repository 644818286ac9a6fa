//! The device reader loop's decision table.  One reader owns one grabbed
//! device; each turn of its loop observes the shutdown flag and the outcome
//! of a non-blocking fetch, and decides what to do next.

use vstd::prelude::*;

verus! {

/// What a non-blocking fetch from the device produced.
#[derive(Clone, Copy, PartialEq, Eq, Structural, Debug)]
pub enum FetchOutcome {
    /// A batch of events is ready to process.
    Batch,
    /// No events are currently available — the expected idle condition
    /// under non-blocking reads.
    NoData,
    /// An unrecoverable read error.
    Failed,
}

/// What the reader does next.
#[derive(Clone, Copy, PartialEq, Eq, Structural, Debug)]
pub enum ReaderDecision {
    /// Shutdown was requested: leave the loop cleanly.
    Stop,
    /// Process the fetched batch of events.
    ProcessBatch,
    /// Wait — bounded — for the device to become readable, then try again.
    WaitForReadiness,
    /// Report a fatal status for this device and terminate this reader
    /// only; other readers are unaffected.
    FailDevice,
}

/// The reader loop's decision: a requested shutdown ends the loop whatever
/// the fetch produced; otherwise a batch is processed, an empty fetch waits
/// on readiness with a bounded timeout, and a read error is fatal for this
/// device alone.
pub fn reader_step(shutdown: bool, outcome: FetchOutcome) -> (d: ReaderDecision)
    ensures
        shutdown ==> d == ReaderDecision::Stop,
        !shutdown && outcome == FetchOutcome::Batch ==> d == ReaderDecision::ProcessBatch,
        !shutdown && outcome == FetchOutcome::NoData ==> d == ReaderDecision::WaitForReadiness,
        !shutdown && outcome == FetchOutcome::Failed ==> d == ReaderDecision::FailDevice,
{
    if shutdown {
        ReaderDecision::Stop
    } else {
        match outcome {
            FetchOutcome::Batch => ReaderDecision::ProcessBatch,
            FetchOutcome::NoData => ReaderDecision::WaitForReadiness,
            FetchOutcome::Failed => ReaderDecision::FailDevice,
        }
    }
}

/// What one channel submission reported back to the reader.
#[derive(Clone, Copy, PartialEq, Eq, Structural, Debug)]
pub enum SubmitReport {
    /// The event was handed to the channel.
    Delivered,
    /// The channel was full and the event was best-effort: it was shed.
    Shed,
    /// The channel's consuming side is gone.
    Disconnected,
}

/// Whether the reader stops after a submission: it terminates immediately
/// when the channel's consuming side has disconnected — no further work is
/// possible — while a shed best-effort event is no reason to stop.
pub fn after_submit(report: SubmitReport) -> (stop: bool)
    ensures
        stop == (report == SubmitReport::Disconnected),
{
    match report {
        SubmitReport::Delivered => false,
        SubmitReport::Shed => false,
        SubmitReport::Disconnected => true,
    }
}

} // verus!
