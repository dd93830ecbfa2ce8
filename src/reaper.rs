use vstd::prelude::*;

verus! {

/// `WNOHANG`: return at once when no child has changed state.
pub const WNOHANG: i32 = 1;
/// `WUNTRACED`: also report stopped children.
pub const WUNTRACED: i32 = 2;
/// `WCONTINUED`: also report continued children.
pub const WCONTINUED: i32 = 8;
/// `ECHILD`: the caller has no children left.
pub const ECHILD: i32 = 10;

/// Flags for draining child state changes without blocking: terminated,
/// stopped and continued children are all reported.
pub fn reap_wait_flags() -> (r: i32)
    ensures
        r == WNOHANG | WUNTRACED | WCONTINUED,
{
    WNOHANG | WUNTRACED | WCONTINUED
}

/// What one non-blocking wait returned.
#[derive(Clone, Copy, Debug, PartialEq, Eq, Structural)]
pub enum WaitOutcome {
    /// A child changed state; `pid` is `None` when children remain but none
    /// has anything to report.
    Changed { pid: Option<i32> },
    /// The wait failed with this OS error number (`ECHILD`: no children).
    Failed { errno: i32 },
}

/// What the reaper does after one wait.
#[derive(Clone, Copy, Debug, PartialEq, Eq, Structural)]
pub enum ReapAction {
    /// Report that `pid` changed state, then wait again.
    Report { pid: i32 },
    /// Wait again without a report.
    Again,
    /// Nothing more to reap until the next notification.
    Idle,
    /// No children are left.
    NoChildren,
    /// An unexpected wait error.
    Fail { errno: i32 },
}

pub open spec fn reap_next_spec(verbose: bool, outcome: WaitOutcome) -> ReapAction {
    match outcome {
        WaitOutcome::Changed { pid: Some(p) } => if verbose { ReapAction::Report { pid: p } } else { ReapAction::Again },
        WaitOutcome::Changed { pid: None } => ReapAction::Idle,
        WaitOutcome::Failed { errno } => if errno == ECHILD { ReapAction::NoChildren } else { ReapAction::Fail { errno } },
    }
}

/// One step of draining child state changes after a "child changed state"
/// notification. `verbose` is captured once, when the reaper is set up.
pub fn reap_next(verbose: bool, outcome: WaitOutcome) -> (r: ReapAction)
    ensures
        r == reap_next_spec(verbose, outcome),
{
    match outcome {
        WaitOutcome::Changed { pid: Some(p) } => if verbose { ReapAction::Report { pid: p } } else { ReapAction::Again },
        WaitOutcome::Changed { pid: None } => ReapAction::Idle,
        WaitOutcome::Failed { errno } => if errno == ECHILD { ReapAction::NoChildren } else { ReapAction::Fail { errno } },
    }
}

/// Whether the reaper calls wait again after `a`.
pub open spec fn continues(a: ReapAction) -> bool {
    a is Report || a is Again
}

/// Draining goes on exactly while children keep reporting changes, and
/// stops, blocking on nothing, when none has more to report or none is left.
pub proof fn lemma_reap_drains(verbose: bool, outcome: WaitOutcome)
    ensures
        continues(reap_next_spec(verbose, outcome)) == (outcome matches WaitOutcome::Changed { pid: Some(_) }),
{
}

} // verus!
