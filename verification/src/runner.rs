use vstd::prelude::*;

verus! {

/// How one external process invocation ended.
#[derive(Clone, Copy, PartialEq, Eq, Structural, Debug)]
pub enum PhaseOutcome {
    /// The process could not be started at all: the external tool or the
    /// managed executable is missing or broken.
    SpawnFailed,
    /// The process ran to completion; `exit_zero` is true on a clean exit.
    Exited { exit_zero: bool },
}

/// A phase succeeds only when its process started and exited cleanly: a spawn
/// failure and a nonzero exit are both failures, and neither aborts the run.
pub open spec fn phase_succeeded(o: PhaseOutcome) -> bool {
    o == (PhaseOutcome::Exited { exit_zero: true })
}

/// Judges one external process outcome.
pub fn outcome_ok(o: &PhaseOutcome) -> (r: bool)
    ensures
        r == phase_succeeded(*o),
{
    match o {
        PhaseOutcome::SpawnFailed => false,
        PhaseOutcome::Exited { exit_zero } => *exit_zero,
    }
}

/// Whether the orchestrator's own console is suppressed before spawning the
/// child: only on a fresh run, where no persistent console was asked for.
pub fn suppress_console_before_spawn(persistent_console: bool) -> (r: bool)
    ensures
        r == !persistent_console,
{
    !persistent_console
}

/// Whether a console is restored after the child has been waited on: when a
/// persistent console was asked for, or when the run failed and its
/// diagnostics must become visible.
pub fn restore_console_after_wait(persistent_console: bool, run_failed: bool) -> (r: bool)
    ensures
        r == (persistent_console || run_failed),
{
    persistent_console || run_failed
}

/// What a phase reports to the orchestrator: the phase's own outcome and the
/// best-effort console changes around it. A failed console change is itself a
/// problem, but blocks nothing.
pub fn phase_report(phase_ok: bool, console_ok: bool) -> (r: bool)
    ensures
        r == (phase_ok && console_ok),
{
    phase_ok && console_ok
}

} // verus!
