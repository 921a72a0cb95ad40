//! The instance guard's startup decision and the process exit codes.
//!
//! At process start the shell probes an OS-wide exclusivity token held
//! under a fixed application identifier; what must follow each probe
//! outcome is decided here, before any window, tray or plugin work.

use vstd::prelude::*;

verus! {

/// What probing the instance-exclusivity token reported.
#[derive(Clone, Copy, PartialEq, Eq, Structural, Debug)]
pub enum LockProbe {
    /// This process now holds the token; it keeps it for its lifetime.
    Acquired,
    /// Another running instance already holds the token.
    HeldElsewhere,
    /// The lock primitive itself failed.
    ProbeFailed,
}

/// What startup must do after the probe.
#[derive(Clone, Copy, PartialEq, Eq, Structural, Debug)]
pub enum StartupDecision {
    /// First instance: go on to the rest of initialisation.
    Proceed,
    /// A later instance: terminate at once with the already-running exit
    /// code, showing no window and loading no plugin.
    ExitAlreadyRunning,
    /// The primitive failed: abort with a diagnostic, since there is no
    /// safe degraded mode.
    AbortLockFailure,
}

/// The decision owed for each probe outcome: first come, first served,
/// later instances always lose, and a failing primitive is fatal.
pub open spec fn startup_decision(p: LockProbe) -> StartupDecision {
    match p {
        LockProbe::Acquired => StartupDecision::Proceed,
        LockProbe::HeldElsewhere => StartupDecision::ExitAlreadyRunning,
        LockProbe::ProbeFailed => StartupDecision::AbortLockFailure,
    }
}

/// Decide what startup does with the instance-token probe.
pub fn decide_startup(p: LockProbe) -> (d: StartupDecision)
    ensures
        d == startup_decision(p),
{
    match p {
        LockProbe::Acquired => StartupDecision::Proceed,
        LockProbe::HeldElsewhere => StartupDecision::ExitAlreadyRunning,
        LockProbe::ProbeFailed => StartupDecision::AbortLockFailure,
    }
}

/// Exit status of a process that lost to an already-running instance.
pub fn already_running_exit_code() -> (c: i32)
    ensures
        c == 1,
{
    1
}

/// Exit status of a graceful quit, from the tray's Quit item or an
/// explicit close.
pub fn graceful_exit_code() -> (c: i32)
    ensures
        c == 0,
{
    0
}

} // verus!
