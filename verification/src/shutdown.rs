//! Ending the process: the main worker looks at the stop flag at a fixed
//! pace and, once it is set, leaves the workers a fixed grace period.

use vstd::prelude::*;

verus! {

/// Pause between two looks at the stop flag, in milliseconds.
pub const STOP_POLL_MS: u64 = 1000;

/// Time left to the workers once a stop is requested, in milliseconds.
pub const SHUTDOWN_GRACE_MS: u64 = 2000;

/// What the main worker does after a look at the stop flag.
#[derive(Clone, Copy, PartialEq, Eq, Structural, Debug)]
pub enum MainAction {
    /// Sleep, then look again.
    Wait { wait_ms: u64 },
    /// Announce the shutdown, sleep, then end the process.
    Exit { grace_ms: u64 },
}

/// What follows a look at the stop flag.
pub open spec fn main_step_spec(stop_requested: bool) -> MainAction {
    if stop_requested {
        MainAction::Exit { grace_ms: SHUTDOWN_GRACE_MS }
    } else {
        MainAction::Wait { wait_ms: STOP_POLL_MS }
    }
}

/// What the main worker does after a look at the stop flag.
pub fn main_step(stop_requested: bool) -> (action: MainAction)
    ensures
        action == main_step_spec(stop_requested),
{
    if stop_requested {
        MainAction::Exit { grace_ms: SHUTDOWN_GRACE_MS }
    } else {
        MainAction::Wait { wait_ms: STOP_POLL_MS }
    }
}

} // verus!
