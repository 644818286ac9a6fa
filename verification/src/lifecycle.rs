//! The process lifecycle: a one-way Running-to-ShuttingDown transition,
//! observed cooperatively by every loop, and the process exit status.

use vstd::prelude::*;

verus! {

/// How often loops wake to notice a requested shutdown, in milliseconds.
pub const SHUTDOWN_POLL_INTERVAL_MS: u64 = 100;

/// The process-wide lifecycle: Running until a shutdown is requested, then
/// ShuttingDown for the rest of the process's life.  The flag is set-once:
/// no operation of this type clears it.
pub struct Lifecycle {
    shutting_down: bool,
}

impl Lifecycle {
    pub closed spec fn is_shutting_down(&self) -> bool {
        self.shutting_down
    }

    /// A freshly started process: running.
    pub fn new() -> (lc: Self)
        ensures
            !lc.is_shutting_down(),
    {
        Lifecycle { shutting_down: false }
    }

    /// The one-way transition, taken on a termination signal or on any
    /// unrecoverable failure (all devices dead, output ceiling reached,
    /// channel disconnect).  Idempotent; there is no way back.
    pub fn request_shutdown(&mut self)
        ensures
            final(self).is_shutting_down(),
    {
        self.shutting_down = true;
    }

    /// Polled by every loop.
    pub fn shutdown_requested(&self) -> (r: bool)
        ensures
            r == self.is_shutting_down(),
    {
        self.shutting_down
    }
}

/// The process exit status: 0 for a clean, requested shutdown; a distinct
/// non-zero status when every device pipeline died without a shutdown
/// request, so that the external supervisor restarts the process.
pub fn process_exit_code(shutdown_requested: bool) -> (c: i32)
    ensures
        c == if shutdown_requested { 0i32 } else { 1i32 },
{
    if shutdown_requested {
        0
    } else {
        1
    }
}

} // verus!
