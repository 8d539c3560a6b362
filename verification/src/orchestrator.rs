//! The retry state machine that drives a download.
//!
//! The machine decides; the caller acts. Each call of
//! [`Orchestrator::step`] takes what just happened and answers with the next
//! thing to do. The machine also keeps a model of the target file, so that
//! what is on disk at each stage is part of what is proved.

use vstd::prelude::*;
use crate::probe::{mode_for, select_mode, TransferMode};

verus! {

/// The number of attempts after which a download is given up.
pub const MAX_RETRY: u32 = 3;

/// Why an attempt failed. The retry policy treats all of them alike.
#[derive(Clone, Copy, Debug, PartialEq, Eq, Structural)]
pub enum FailureKind {
    /// The request could not be sent or was answered with an error.
    ConnectionFailure,
    /// The target file could not be created or written, or the body could
    /// not be read.
    IoFailure,
    /// The stream ended before the advertised number of bytes had arrived.
    IncompleteTransfer,
}

/// What the transfer of one attempt reports once all its tasks have stopped.
#[derive(Clone, Copy, Debug, PartialEq, Eq, Structural)]
pub enum AttemptReport {
    /// The body was read to its end and `bytes` bytes were written.
    StreamEnded { bytes: u64 },
    /// No response could be had.
    ConnectionFailed,
    /// Reading the body or writing the file failed.
    IoFailed,
}

/// How a run ends.
#[derive(Clone, Copy, Debug, PartialEq, Eq, Structural)]
pub enum Outcome {
    /// The file is complete and holds `size` bytes.
    Succeeded { size: u64 },
    /// Every attempt failed; `last` is the failure of the final one.
    RetriesExhausted { last: FailureKind },
    /// The user interrupted the run.
    Cancelled,
}

/// Where a run stands.
#[derive(Clone, Copy, Debug, PartialEq, Eq, Structural)]
pub enum Stage {
    /// Waiting for the answer of the size probe.
    Probing,
    /// The attempt with this number, counted from one, is under way.
    Attempting(u32),
    /// An attempt failed and its file is gone; the countdown before the
    /// attempt with this number is shown.
    Retrying(u32),
    /// The run is over.
    Done(Outcome),
}

/// What happened outside the machine.
#[derive(Clone, Copy, Debug, PartialEq, Eq, Structural)]
pub enum Event {
    /// The size probe answered.
    Probed(Option<u64>),
    /// The current attempt is over and all its tasks are joined.
    AttemptEnded(AttemptReport),
    /// The retry countdown has run its fixed time.
    CountdownEnded,
    /// The user asked to stop.
    Interrupted,
}

/// What the caller is to do next.
#[derive(Clone, Copy, Debug, PartialEq, Eq, Structural)]
pub enum Action {
    /// Create the target file empty, then run attempt `index` in `mode`.
    StartAttempt { index: u32, mode: TransferMode },
    /// Remove the partial file, then show the countdown before attempt `next`.
    Retry { failure: FailureKind, next: u32 },
    /// Stop with this outcome; remove the target file unless it succeeded.
    Finish(Outcome),
    /// The event does not belong to the current stage: do nothing.
    Ignore,
}

/// The state of one run. `file` models the target file: `None` while it does
/// not exist, else the number of bytes last known to be in it.
#[derive(Clone, Copy, Debug, PartialEq, Eq, Structural)]
pub struct Orchestrator {
    pub stage: Stage,
    /// The mode selected by the probe; `Unknown` until it has answered.
    pub mode: TransferMode,
    /// How many attempts have been started.
    pub attempts: u32,
    pub file: Option<u64>,
}

/// The verdict on a finished attempt: the bytes written, or the failure.
/// In sized mode a stream that ends short of a nonzero advertised total is
/// an incomplete transfer.
pub open spec fn verdict(mode: TransferMode, report: AttemptReport) -> Result<u64, FailureKind> {
    match report {
        AttemptReport::ConnectionFailed => Err(FailureKind::ConnectionFailure),
        AttemptReport::IoFailed => Err(FailureKind::IoFailure),
        AttemptReport::StreamEnded { bytes } => match mode {
            TransferMode::Sized(total) if 0 < total && bytes < total => Err(
                FailureKind::IncompleteTransfer,
            ),
            _ => Ok(bytes),
        },
    }
}

/// The process exit code that an outcome maps to.
pub open spec fn exit_code_of(outcome: Outcome) -> int {
    match outcome {
        Outcome::Succeeded { .. } => 0,
        _ => 1,
    }
}

/// Whether an action leaves the target file on disk once it is carried out.
pub open spec fn leaves_file(action: Action) -> bool {
    match action {
        Action::StartAttempt { .. } => true,
        Action::Finish(Outcome::Succeeded { .. }) => true,
        _ => false,
    }
}

/// Judges a finished attempt.
pub fn classify(mode: TransferMode, report: AttemptReport) -> (v: Result<u64, FailureKind>)
    ensures
        v == verdict(mode, report),
{
    match report {
        AttemptReport::ConnectionFailed => Err(FailureKind::ConnectionFailure),
        AttemptReport::IoFailed => Err(FailureKind::IoFailure),
        AttemptReport::StreamEnded { bytes } => match mode {
            TransferMode::Sized(total) => {
                if 0 < total && bytes < total {
                    Err(FailureKind::IncompleteTransfer)
                } else {
                    Ok(bytes)
                }
            },
            TransferMode::Unknown => Ok(bytes),
        },
    }
}

/// The exit code of the process for an outcome: 0 on success, 1 otherwise.
pub fn exit_code(outcome: Outcome) -> (code: i32)
    ensures
        code == exit_code_of(outcome),
{
    match outcome {
        Outcome::Succeeded { .. } => 0,
        _ => 1,
    }
}

impl Orchestrator {
    /// The state before anything has happened.
    pub open spec fn initial() -> Orchestrator {
        Orchestrator { stage: Stage::Probing, mode: TransferMode::Unknown, attempts: 0, file: None }
    }

    /// The run is over.
    pub open spec fn is_done(self) -> bool {
        self.stage is Done
    }

    /// The state in which a run ends with `outcome`.
    pub open spec fn ended(self, outcome: Outcome) -> Orchestrator {
        Orchestrator {
            stage: Stage::Done(outcome),
            file: match outcome {
                Outcome::Succeeded { size } => Some(size),
                _ => None,
            },
            ..self
        }
    }

    /// The transition function: the state after `event`, and the action that
    /// answers it.
    pub open spec fn next(self, event: Event) -> (Orchestrator, Action) {
        match (self.stage, event) {
            (Stage::Done(_), _) => (self, Action::Ignore),
            (_, Event::Interrupted) => (
                self.ended(Outcome::Cancelled),
                Action::Finish(Outcome::Cancelled),
            ),
            (Stage::Probing, Event::Probed(size)) => (
                Orchestrator {
                    stage: Stage::Attempting(1),
                    mode: mode_for(size),
                    attempts: 1,
                    file: Some(0),
                },
                Action::StartAttempt { index: 1, mode: mode_for(size) },
            ),
            (Stage::Attempting(n), Event::AttemptEnded(report)) => match verdict(
                self.mode,
                report,
            ) {
                Ok(size) => (
                    self.ended(Outcome::Succeeded { size }),
                    Action::Finish(Outcome::Succeeded { size }),
                ),
                Err(failure) => if n < MAX_RETRY {
                    (
                        Orchestrator { stage: Stage::Retrying((n + 1) as u32), file: None, ..self },
                        Action::Retry { failure, next: (n + 1) as u32 },
                    )
                } else {
                    (
                        self.ended(Outcome::RetriesExhausted { last: failure }),
                        Action::Finish(Outcome::RetriesExhausted { last: failure }),
                    )
                },
            },
            (Stage::Retrying(n), Event::CountdownEnded) => (
                Orchestrator { stage: Stage::Attempting(n), attempts: n, file: Some(0), ..self },
                Action::StartAttempt { index: n, mode: self.mode },
            ),
            _ => (self, Action::Ignore),
        }
    }

    /// What holds of every state that a run can reach.
    pub open spec fn wf(self) -> bool {
        match self.stage {
            Stage::Probing => self.attempts == 0 && self.file is None && self.mode
                == TransferMode::Unknown,
            Stage::Attempting(n) => 1 <= n <= MAX_RETRY && self.attempts == n && self.file
                is Some,
            Stage::Retrying(n) => 2 <= n <= MAX_RETRY && self.attempts == n - 1 && self.file
                is None,
            Stage::Done(Outcome::Succeeded { size }) => {
                &&& 1 <= self.attempts <= MAX_RETRY
                &&& self.file == Some(size)
                &&& match self.mode {
                    TransferMode::Sized(total) => total <= size,
                    TransferMode::Unknown => true,
                }
            },
            Stage::Done(Outcome::RetriesExhausted { .. }) => self.attempts == MAX_RETRY
                && self.file is None,
            Stage::Done(Outcome::Cancelled) => self.attempts <= MAX_RETRY && self.file is None,
        }
    }

    /// A fresh machine, waiting for the probe's answer.
    pub fn new() -> (s: Orchestrator)
        ensures
            s == Orchestrator::initial(),
            s.wf(),
    {
        Orchestrator { stage: Stage::Probing, mode: TransferMode::Unknown, attempts: 0, file: None }
    }

    /// Takes one event and answers with the next action.
    pub fn step(&mut self, event: Event) -> (action: Action)
        ensures
            (*final(self), action) == old(self).next(event),
            old(self).wf() ==> final(self).wf(),
    {
        if let Stage::Done(_) = self.stage {
            return Action::Ignore;
        }
        match event {
            Event::Interrupted => {
                self.stage = Stage::Done(Outcome::Cancelled);
                self.file = None;
                Action::Finish(Outcome::Cancelled)
            },
            Event::Probed(size) => {
                if let Stage::Probing = self.stage {
                    let mode = select_mode(size);
                    self.stage = Stage::Attempting(1);
                    self.mode = mode;
                    self.attempts = 1;
                    self.file = Some(0);
                    Action::StartAttempt { index: 1, mode }
                } else {
                    Action::Ignore
                }
            },
            Event::AttemptEnded(report) => {
                if let Stage::Attempting(n) = self.stage {
                    match classify(self.mode, report) {
                        Ok(size) => {
                            self.stage = Stage::Done(Outcome::Succeeded { size });
                            self.file = Some(size);
                            Action::Finish(Outcome::Succeeded { size })
                        },
                        Err(failure) => {
                            self.file = None;
                            if n < MAX_RETRY {
                                self.stage = Stage::Retrying(n + 1);
                                Action::Retry { failure, next: n + 1 }
                            } else {
                                let outcome = Outcome::RetriesExhausted { last: failure };
                                self.stage = Stage::Done(outcome);
                                Action::Finish(outcome)
                            }
                        },
                    }
                } else {
                    Action::Ignore
                }
            },
            Event::CountdownEnded => {
                if let Stage::Retrying(n) = self.stage {
                    self.stage = Stage::Attempting(n);
                    self.attempts = n;
                    self.file = Some(0);
                    Action::StartAttempt { index: n, mode: self.mode }
                } else {
                    Action::Ignore
                }
            },
        }
    }
}

} // verus!
