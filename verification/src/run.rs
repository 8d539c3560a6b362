//! Whole runs of the retry machine: what holds after any sequence of events.

use vstd::prelude::*;
use crate::orchestrator::{
    exit_code_of, leaves_file, verdict, Action, AttemptReport, Event, Orchestrator, Outcome,
    Stage, MAX_RETRY,
};
use crate::probe::{mode_for, TransferMode};

verus! {

/// The state after `events`, taken in order from state `s`.
pub open spec fn run(s: Orchestrator, events: Seq<Event>) -> Orchestrator
    decreases events.len(),
{
    if events.len() == 0 {
        s
    } else {
        run(s, events.drop_last()).next(events.last()).0
    }
}

/// The number of attempts that the machine starts in answer to `events`.
pub open spec fn starts(s: Orchestrator, events: Seq<Event>) -> nat
    decreases events.len(),
{
    if events.len() == 0 {
        0
    } else {
        let before = run(s, events.drop_last());
        let started: nat = if before.next(events.last()).1 is StartAttempt {
            1
        } else {
            0
        };
        starts(s, events.drop_last()) + started
    }
}

/// The events of attempts that end with `reports`, one after the other, each
/// followed by the end of a countdown.
pub open spec fn attempt_events(reports: Seq<AttemptReport>) -> Seq<Event>
    decreases reports.len(),
{
    if reports.len() == 0 {
        Seq::empty()
    } else {
        attempt_events(reports.drop_last()).push(Event::AttemptEnded(reports.last())).push(
            Event::CountdownEnded,
        )
    }
}

/// A run from the start: the probe answers `probe`, then the attempts end
/// with `reports`.
pub open spec fn probed_run(probe: Option<u64>, reports: Seq<AttemptReport>) -> Seq<Event> {
    seq![Event::Probed(probe)] + attempt_events(reports)
}

/// Every report in `reports` is a failure in `mode`.
pub open spec fn all_fail(mode: TransferMode, reports: Seq<AttemptReport>) -> bool {
    forall|i: int| 0 <= i < reports.len() ==> (#[trigger] verdict(mode, reports[i])) is Err
}

/// No stream in `events` delivered more than `total` bytes.
pub open spec fn within_total(events: Seq<Event>, total: u64) -> bool {
    forall|i: int|
        0 <= i < events.len() ==> match #[trigger] events[i] {
            Event::AttemptEnded(AttemptReport::StreamEnded { bytes }) => bytes <= total,
            _ => true,
        }
}

/// No stream in `events` ended empty.
pub open spec fn no_empty_stream(events: Seq<Event>) -> bool {
    forall|i: int|
        0 <= i < events.len() ==> #[trigger] events[i] != Event::AttemptEnded(
            AttemptReport::StreamEnded { bytes: 0 },
        )
}

/// One step keeps a reachable state reachable and never lowers the attempt
/// count. Once the probe has answered, the machine never probes again and
/// never changes the mode.
pub proof fn lemma_step_keeps_wf(s: Orchestrator, event: Event)
    requires
        s.wf(),
    ensures
        s.next(event).0.wf(),
        s.attempts <= s.next(event).0.attempts <= MAX_RETRY,
        !(s.stage is Probing) ==> s.next(event).0.mode == s.mode && !(s.next(event).0.stage
            is Probing),
        s.next(event).1 is StartAttempt <==> s.next(event).0.attempts == s.attempts + 1,
{
}

/// Every state of a run from a reachable state is reachable, and the
/// attempts started so far are exactly those counted: never more than
/// `MAX_RETRY` in all.
pub proof fn lemma_run_keeps_wf(s: Orchestrator, events: Seq<Event>)
    requires
        s.wf(),
    ensures
        run(s, events).wf(),
        run(s, events).attempts == s.attempts + starts(s, events),
        s.attempts + starts(s, events) <= MAX_RETRY,
        !(s.stage is Probing) ==> run(s, events).mode == s.mode && !(run(s, events).stage
            is Probing),
    decreases events.len(),
{
    if events.len() > 0 {
        lemma_run_keeps_wf(s, events.drop_last());
        lemma_step_keeps_wf(run(s, events.drop_last()), events.last());
    }
}

/// A finished run stays as it is: every later event is ignored.
pub proof fn lemma_done_is_final(s: Orchestrator, events: Seq<Event>)
    requires
        s.is_done(),
    ensures
        run(s, events) == s,
        starts(s, events) == 0,
    decreases events.len(),
{
    if events.len() > 0 {
        lemma_done_is_final(s, events.drop_last());
    }
}

/// When an attempt other than the last one fails, the target file is removed
/// before the countdown, is absent throughout it, and the next attempt
/// begins with an empty file.
pub proof fn lemma_no_residue_between_attempts(s: Orchestrator, n: u32, report: AttemptReport)
    requires
        s.wf(),
        s.stage == Stage::Attempting(n),
        n < MAX_RETRY,
        verdict(s.mode, report) is Err,
    ensures
        ({
            let (waiting, action) = s.next(Event::AttemptEnded(report));
            let (retried, start) = waiting.next(Event::CountdownEnded);
            &&& action == Action::Retry {
                failure: verdict(s.mode, report)->Err_0,
                next: (n + 1) as u32,
            }
            &&& !leaves_file(action)
            &&& waiting.stage == Stage::Retrying((n + 1) as u32)
            &&& waiting.file is None
            &&& start == Action::StartAttempt { index: (n + 1) as u32, mode: s.mode }
            &&& retried.stage == Stage::Attempting((n + 1) as u32)
            &&& retried.file == Some(0u64)
        }),
{
}

/// While the countdown is shown there is no target file.
pub proof fn lemma_no_file_while_retrying(events: Seq<Event>)
    ensures
        run(Orchestrator::initial(), events).stage is Retrying ==> run(
            Orchestrator::initial(),
            events,
        ).file is None,
{
    lemma_run_keeps_wf(Orchestrator::initial(), events);
}

/// An interrupt ends any unfinished run at once: the outcome is `Cancelled`,
/// the file is to be removed and is gone, the exit code is not zero, and no
/// further attempt is started.
pub proof fn lemma_interrupt_cancels(s: Orchestrator, later: Seq<Event>)
    requires
        !s.is_done(),
    ensures
        ({
            let (stopped, action) = s.next(Event::Interrupted);
            &&& action == Action::Finish(Outcome::Cancelled)
            &&& !leaves_file(action)
            &&& exit_code_of(Outcome::Cancelled) != 0
            &&& stopped.stage == Stage::Done(Outcome::Cancelled)
            &&& stopped.file is None
            &&& stopped.attempts == s.attempts
            &&& run(stopped, later) == stopped
            &&& starts(stopped, later) == 0
        }),
{
    lemma_done_is_final(s.next(Event::Interrupted).0, later);
}

/// The state after the probe answered `probe` and the first `k` attempts
/// failed, for `k` below `MAX_RETRY`: attempt `k + 1` is under way.
proof fn lemma_failing_prefix(probe: Option<u64>, reports: Seq<AttemptReport>)
    requires
        reports.len() < MAX_RETRY,
        all_fail(mode_for(probe), reports),
    ensures
        run(Orchestrator::initial(), probed_run(probe, reports)) == (Orchestrator {
            stage: Stage::Attempting((reports.len() + 1) as u32),
            mode: mode_for(probe),
            attempts: (reports.len() + 1) as u32,
            file: Some(0),
        }),
        starts(Orchestrator::initial(), probed_run(probe, reports)) == reports.len() + 1,
    decreases reports.len(),
{
    let init = Orchestrator::initial();
    let events = probed_run(probe, reports);
    if reports.len() == 0 {
        assert(events =~= seq![Event::Probed(probe)]);
        assert(events.drop_last() =~= Seq::<Event>::empty());
        assert(run(init, events.drop_last()) == init);
        assert(starts(init, events.drop_last()) == 0);
    } else {
        let shorter = reports.drop_last();
        let before = probed_run(probe, shorter);
        let ended = before.push(Event::AttemptEnded(reports.last()));
        assert(all_fail(mode_for(probe), shorter)) by {
            assert forall|i: int| 0 <= i < shorter.len() implies (#[trigger] verdict(
                mode_for(probe),
                shorter[i],
            )) is Err by {
                assert(shorter[i] == reports[i]);
            }
        }
        lemma_failing_prefix(probe, shorter);
        assert(verdict(mode_for(probe), reports[reports.len() - 1]) is Err);
        assert(events =~= ended.push(Event::CountdownEnded));
        assert(events.drop_last() =~= ended);
        assert(ended.drop_last() =~= before);
        assert(run(init, ended) == run(init, before).next(ended.last()).0);
        assert(run(init, events) == run(init, ended).next(events.last()).0);
        assert(starts(init, ended) == starts(init, before));
    }
}

/// A download of which every attempt fails is tried exactly `MAX_RETRY`
/// times: the last failure ends the run as `RetriesExhausted`, with no file
/// left and a non-zero exit code, and nothing after it starts another
/// attempt.
pub proof fn lemma_always_failing_exhausts(
    probe: Option<u64>,
    reports: Seq<AttemptReport>,
    later: Seq<Event>,
)
    requires
        reports.len() == MAX_RETRY,
        all_fail(mode_for(probe), reports),
    ensures
        ({
            let events = probed_run(probe, reports);
            let end = run(Orchestrator::initial(), events);
            let outcome = Outcome::RetriesExhausted {
                last: verdict(mode_for(probe), reports.last())->Err_0,
            };
            &&& end.stage == Stage::Done(outcome)
            &&& end.attempts == MAX_RETRY
            &&& starts(Orchestrator::initial(), events) == MAX_RETRY
            &&& end.file is None
            &&& exit_code_of(outcome) == 1
            &&& run(end, later) == end
            &&& starts(end, later) == 0
        }),
{
    let init = Orchestrator::initial();
    let events = probed_run(probe, reports);
    let shorter = reports.drop_last();
    let before = probed_run(probe, shorter);
    let ended = before.push(Event::AttemptEnded(reports.last()));
    assert(all_fail(mode_for(probe), shorter)) by {
        assert forall|i: int| 0 <= i < shorter.len() implies (#[trigger] verdict(
            mode_for(probe),
            shorter[i],
        )) is Err by {
            assert(shorter[i] == reports[i]);
        }
    }
    lemma_failing_prefix(probe, shorter);
    assert(verdict(mode_for(probe), reports[reports.len() - 1]) is Err);
    assert(events =~= ended.push(Event::CountdownEnded));
    assert(events.drop_last() =~= ended);
    assert(ended.drop_last() =~= before);
    assert(run(init, ended) == run(init, before).next(ended.last()).0);
    assert(run(init, events) == run(init, ended).next(events.last()).0);
    assert(starts(init, ended) == starts(init, before));
    lemma_done_is_final(run(init, events), later);
}

/// In a run that succeeded, the file holds what the outcome names, and in
/// sized mode no less than the advertised total.
proof fn lemma_success_bounds(events: Seq<Event>, total: u64, sized: bool)
    requires
        sized ==> within_total(events, total),
        !sized ==> no_empty_stream(events),
    ensures
        ({
            let end = run(Orchestrator::initial(), events);
            end.stage matches Stage::Done(Outcome::Succeeded { size }) ==> {
                &&& sized && end.mode == TransferMode::Sized(total) ==> size == total
                &&& !sized && end.mode == TransferMode::Unknown ==> size > 0
            }
        }),
    decreases events.len(),
{
    let init = Orchestrator::initial();
    if events.len() > 0 {
        let shorter = events.drop_last();
        assert(sized ==> within_total(shorter, total)) by {
            if sized {
                assert forall|i: int| 0 <= i < shorter.len() implies match #[trigger] shorter[i] {
                    Event::AttemptEnded(AttemptReport::StreamEnded { bytes }) => bytes <= total,
                    _ => true,
                } by {
                    assert(events[i] == shorter[i]);
                }
            }
        }
        assert(!sized ==> no_empty_stream(shorter)) by {
            if !sized {
                assert forall|i: int| 0 <= i < shorter.len() implies #[trigger] shorter[i]
                    != Event::AttemptEnded(AttemptReport::StreamEnded { bytes: 0 }) by {
                    assert(events[i] == shorter[i]);
                }
            }
        }
        lemma_success_bounds(shorter, total, sized);
        lemma_run_keeps_wf(init, shorter);
        lemma_run_keeps_wf(init, events);
        let before = run(init, shorter);
        let last = events[events.len() - 1];
        assert(run(init, events) == before.next(last).0);
        if let Event::AttemptEnded(AttemptReport::StreamEnded { bytes }) = last {
            if sized {
                assert(bytes <= total);
            } else {
                assert(bytes != 0);
            }
        }
    }
}

/// A successful run in sized mode, in which no stream delivered more than
/// the advertised total, leaves a file of exactly that size and exits with
/// code 0.
pub proof fn lemma_sized_success_is_exact(events: Seq<Event>, total: u64)
    requires
        within_total(events, total),
        run(Orchestrator::initial(), events).stage is Done,
        run(Orchestrator::initial(), events).stage->Done_0 is Succeeded,
        run(Orchestrator::initial(), events).mode == TransferMode::Sized(total),
    ensures
        run(Orchestrator::initial(), events).stage == Stage::Done(
            Outcome::Succeeded { size: total },
        ),
        run(Orchestrator::initial(), events).file == Some(total),
        exit_code_of(run(Orchestrator::initial(), events).stage->Done_0) == 0,
{
    lemma_success_bounds(events, total, true);
    lemma_run_keeps_wf(Orchestrator::initial(), events);
}

/// A successful run in unknown-size mode, in which no stream ended empty,
/// leaves a file that is not empty.
pub proof fn lemma_unknown_success_is_nonempty(events: Seq<Event>)
    requires
        no_empty_stream(events),
        run(Orchestrator::initial(), events).stage is Done,
        run(Orchestrator::initial(), events).stage->Done_0 is Succeeded,
        run(Orchestrator::initial(), events).mode == TransferMode::Unknown,
    ensures
        run(Orchestrator::initial(), events).file is Some,
        run(Orchestrator::initial(), events).file->Some_0 > 0,
        run(Orchestrator::initial(), events).file->Some_0 == run(
            Orchestrator::initial(),
            events,
        ).stage->Done_0->size,
{
    lemma_success_bounds(events, 0, false);
    lemma_run_keeps_wf(Orchestrator::initial(), events);
}

} // verus!
