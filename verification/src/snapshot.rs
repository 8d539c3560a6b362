//! The progress snapshot that the tasks of one attempt share, and the
//! sampler that fills it in unknown-size mode from the size of the file on
//! disk.

use vstd::prelude::*;
use crate::orchestrator::FailureKind;

verus! {

/// The step of connecting that is shown before the first byte arrives.
#[derive(Clone, Copy, Debug, PartialEq, Eq, Structural)]
pub enum ConnectStep {
    /// Looking up the host.
    Resolving,
    /// Waiting for the server.
    Contacting,
}

/// What the transfer is doing.
#[derive(Clone, Copy, Debug, PartialEq, Eq, Structural)]
pub enum Phase {
    Initializing,
    Connecting(ConnectStep),
    Transferring,
    Failed(FailureKind),
    Completed,
}

/// The state of one attempt as its observers see it. A value is a
/// consistent point in time: whoever guards it hands out whole copies.
#[derive(Clone, Copy, Debug, PartialEq, Eq, Structural)]
pub struct ProgressSnapshot {
    pub bytes_transferred: u64,
    pub total_size: Option<u64>,
    pub speed_bytes_per_sec: u64,
    pub has_started: bool,
    pub phase: Phase,
}

/// What the renderer writes beside the wave.
#[derive(Clone, Copy, Debug, PartialEq, Eq, Structural)]
pub enum StatusText {
    /// No byte has arrived yet: the phase, and the whole seconds waited.
    Waiting { phase: Phase, waited_secs: u64 },
    /// Bytes are arriving: the amount in KiB and the speed in KiB per second.
    Receiving { kib: u64, kib_per_sec: u64 },
}

/// The sampler's memory between two samples.
#[derive(Clone, Copy, Debug, PartialEq, Eq, Structural)]
pub struct Sampler {
    /// The file size at the previous sample.
    pub previous_size: u64,
}

/// The snapshot with which every attempt starts.
pub open spec fn fresh(total_size: Option<u64>) -> ProgressSnapshot {
    ProgressSnapshot {
        bytes_transferred: 0,
        total_size,
        speed_bytes_per_sec: 0,
        has_started: false,
        phase: Phase::Initializing,
    }
}

/// The speed over one sampling window in bytes per second: the growth of
/// the file divided by the time between the samples, rounded down. It is
/// zero when no time has passed or the file has not grown, and stops at the
/// largest value that 64 bits hold.
pub open spec fn windowed_speed(previous: nat, current: nat, elapsed_ms: nat) -> nat {
    if elapsed_ms == 0 || current <= previous {
        0
    } else {
        let speed = (current - previous) * 1000 / (elapsed_ms as int);
        if speed > u64::MAX {
            u64::MAX as nat
        } else {
            speed as nat
        }
    }
}

/// The phase after a sample of `current_size` bytes: the first bytes turn
/// a transfer that was still starting up into one that is transferring.
pub open spec fn phase_after_sample(phase: Phase, current_size: u64) -> Phase {
    if current_size > 0 && (phase is Initializing || phase is Connecting) {
        Phase::Transferring
    } else {
        phase
    }
}

/// The snapshot after a sample.
pub open spec fn sampled(
    snapshot: ProgressSnapshot,
    previous_size: u64,
    current_size: u64,
    elapsed_ms: u64,
) -> ProgressSnapshot {
    ProgressSnapshot {
        bytes_transferred: current_size,
        total_size: snapshot.total_size,
        speed_bytes_per_sec: windowed_speed(
            previous_size as nat,
            current_size as nat,
            elapsed_ms as nat,
        ) as u64,
        has_started: snapshot.has_started || current_size > 0,
        phase: phase_after_sample(snapshot.phase, current_size),
    }
}

/// The text for a snapshot, `waited_secs` seconds into the animation.
pub open spec fn status_for(snapshot: ProgressSnapshot, waited_secs: u64) -> StatusText {
    if snapshot.has_started {
        StatusText::Receiving {
            kib: snapshot.bytes_transferred / 1024,
            kib_per_sec: snapshot.speed_bytes_per_sec / 1024,
        }
    } else {
        StatusText::Waiting { phase: snapshot.phase, waited_secs }
    }
}

/// Once bytes have been seen, a sample never takes that back.
pub proof fn lemma_started_stays(
    snapshot: ProgressSnapshot,
    previous_size: u64,
    current_size: u64,
    elapsed_ms: u64,
)
    requires
        snapshot.has_started,
    ensures
        sampled(snapshot, previous_size, current_size, elapsed_ms).has_started,
{
}

impl ProgressSnapshot {
    /// A fresh snapshot for a new attempt; nothing of an earlier attempt
    /// is carried over.
    pub fn new(total_size: Option<u64>) -> (snapshot: ProgressSnapshot)
        ensures
            snapshot == fresh(total_size),
    {
        ProgressSnapshot {
            bytes_transferred: 0,
            total_size,
            speed_bytes_per_sec: 0,
            has_started: false,
            phase: Phase::Initializing,
        }
    }

    /// Shows the next step of connecting. Once bytes are arriving, or the
    /// transfer is over, nothing changes.
    pub fn connecting(&mut self, step: ConnectStep)
        ensures
            *final(self) == (ProgressSnapshot {
                phase: if old(self).phase is Initializing || old(self).phase is Connecting {
                    Phase::Connecting(step)
                } else {
                    old(self).phase
                },
                ..*old(self)
            }),
    {
        match self.phase {
            Phase::Initializing | Phase::Connecting(_) => {
                self.phase = Phase::Connecting(step);
            },
            _ => {},
        }
    }

    /// Records how the transfer ended.
    pub fn conclude(&mut self, result: Result<u64, FailureKind>)
        ensures
            *final(self) == (ProgressSnapshot {
                phase: match result {
                    Ok(_) => Phase::Completed,
                    Err(reason) => Phase::Failed(reason),
                },
                ..*old(self)
            }),
    {
        match result {
            Ok(_) => {
                self.phase = Phase::Completed;
            },
            Err(reason) => {
                self.phase = Phase::Failed(reason);
            },
        }
    }

    /// The text that the renderer writes for this snapshot.
    pub fn status(&self, waited_secs: u64) -> (text: StatusText)
        ensures
            text == status_for(*self, waited_secs),
    {
        if self.has_started {
            StatusText::Receiving {
                kib: self.bytes_transferred / 1024,
                kib_per_sec: self.speed_bytes_per_sec / 1024,
            }
        } else {
            StatusText::Waiting { phase: self.phase, waited_secs }
        }
    }
}

/// The speed over one sampling window, in bytes per second.
pub fn window_speed(previous_size: u64, current_size: u64, elapsed_ms: u64) -> (speed: u64)
    ensures
        speed == windowed_speed(previous_size as nat, current_size as nat, elapsed_ms as nat),
{
    if elapsed_ms == 0 || current_size <= previous_size {
        return 0;
    }
    let grown: u128 = (current_size - previous_size) as u128;
    let per_sec: u128 = grown * 1000 / (elapsed_ms as u128);
    if per_sec > u64::MAX as u128 {
        u64::MAX
    } else {
        per_sec as u64
    }
}

impl Sampler {
    /// A sampler that has not yet seen the file.
    pub fn new() -> (sampler: Sampler)
        ensures
            sampler.previous_size == 0,
    {
        Sampler { previous_size: 0 }
    }

    /// Takes one sample: the file holds `current_size` bytes, and
    /// `elapsed_ms` milliseconds have passed since the previous sample.
    pub fn sample(&mut self, snapshot: &mut ProgressSnapshot, current_size: u64, elapsed_ms: u64)
        ensures
            final(self).previous_size == current_size,
            *final(snapshot) == sampled(
                *old(snapshot),
                old(self).previous_size,
                current_size,
                elapsed_ms,
            ),
    {
        let speed = window_speed(self.previous_size, current_size, elapsed_ms);
        if current_size > 0 {
            snapshot.has_started = true;
            match snapshot.phase {
                Phase::Initializing | Phase::Connecting(_) => {
                    snapshot.phase = Phase::Transferring;
                },
                _ => {},
            }
        }
        snapshot.bytes_transferred = current_size;
        snapshot.speed_bytes_per_sec = speed;
        self.previous_size = current_size;
    }
}

} // verus!
