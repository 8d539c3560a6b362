//! Cancellation: the flag that every long-running loop consults, and what
//! an interrupt does to a run.

use vstd::prelude::*;
use crate::orchestrator::{exit_code, exit_code_of, Action, Event, Orchestrator, Outcome, Stage};

verus! {

/// The cancellation flag. It starts lowered, can only be raised, and stays
/// raised: there is no way to lower it again.
#[derive(Debug)]
pub struct CancellationFlag {
    raised: bool,
}

/// What the interrupt handler is to do.
#[derive(Clone, Copy, Debug, PartialEq, Eq, Structural)]
pub struct InterruptPlan {
    /// The machine's answer: `Finish(Cancelled)` for a run that was still
    /// going, `Ignore` for one that was already over.
    pub action: Action,
    /// The amount on disk for the last status line, in KiB.
    pub downloaded_kib: u64,
    /// The exit code of the run as it now stands: that of a cancelled
    /// run, or of the outcome that it already had.
    pub exit_code: i32,
}

/// The amount for the last status line: the size of the file in KiB, or
/// zero when the size could not be read.
pub open spec fn kib_on_disk(file_size: Option<u64>) -> u64 {
    match file_size {
        Some(bytes) => bytes / 1024,
        None => 0,
    }
}

impl CancellationFlag {
    /// Whether the flag has been raised.
    pub closed spec fn raised(&self) -> bool {
        self.raised
    }

    /// A lowered flag.
    pub fn new() -> (flag: CancellationFlag)
        ensures
            !flag.raised(),
    {
        CancellationFlag { raised: false }
    }

    /// Raises the flag. Returns whether this call was the one that raised
    /// it.
    pub fn raise(&mut self) -> (first: bool)
        ensures
            final(self).raised(),
            first == !old(self).raised(),
    {
        let first = !self.raised;
        self.raised = true;
        first
    }

    /// Whether the flag has been raised.
    pub fn is_raised(&self) -> (raised: bool)
        ensures
            raised == self.raised(),
    {
        self.raised
    }
}

/// The test at the head of the sampler's and the renderer's loop: go on
/// until the flag is raised or the attempt's outcome is known.
pub fn keep_running(flag: &CancellationFlag, outcome_known: bool) -> (go_on: bool)
    ensures
        go_on == (!flag.raised() && !outcome_known),
{
    !flag.is_raised() && !outcome_known
}

/// Handles an interrupt: raises the flag and ends the run as cancelled.
/// `file_size` is the size of the target file if it could be read.
pub fn on_interrupt(
    flag: &mut CancellationFlag,
    run: &mut Orchestrator,
    file_size: Option<u64>,
) -> (plan: InterruptPlan)
    ensures
        final(flag).raised(),
        (*final(run), plan.action) == old(run).next(Event::Interrupted),
        old(run).wf() ==> final(run).wf(),
        plan.downloaded_kib == kib_on_disk(file_size),
        final(run).stage is Done,
        plan.exit_code == exit_code_of(final(run).stage->Done_0),
        !old(run).is_done() ==> {
            &&& plan.action == Action::Finish(Outcome::Cancelled)
            &&& final(run).file is None
            &&& plan.exit_code == 1
        },
{
    flag.raise();
    let action = run.step(Event::Interrupted);
    let downloaded_kib: u64 = match file_size {
        Some(bytes) => bytes / 1024,
        None => 0,
    };
    let code: i32 = match run.stage {
        Stage::Done(outcome) => exit_code(outcome),
        _ => 1,
    };
    InterruptPlan { action, downloaded_kib, exit_code: code }
}

} // verus!
