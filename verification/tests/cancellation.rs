use surfdl::cancel::{keep_running, on_interrupt, CancellationFlag};
use surfdl::orchestrator::{Action, AttemptReport, Event, Orchestrator, Outcome, Stage};

#[test]
fn the_flag_is_raised_once_and_stays_raised() {
    let mut flag = CancellationFlag::new();
    assert!(!flag.is_raised());
    assert!(flag.raise());
    assert!(flag.is_raised());
    assert!(!flag.raise());
    assert!(flag.is_raised());
}

#[test]
fn loops_stop_on_the_flag_or_on_the_outcome() {
    let mut flag = CancellationFlag::new();
    assert!(keep_running(&flag, false));
    assert!(!keep_running(&flag, true));
    flag.raise();
    assert!(!keep_running(&flag, false));
    assert!(!keep_running(&flag, true));
}

fn at_every_stage() -> Vec<Orchestrator> {
    let mut states = Vec::new();
    let mut run = Orchestrator::new();
    states.push(run);
    run.step(Event::Probed(Some(1000)));
    states.push(run);
    run.step(Event::AttemptEnded(AttemptReport::IoFailed));
    states.push(run);
    run.step(Event::CountdownEnded);
    states.push(run);
    run.step(Event::AttemptEnded(AttemptReport::ConnectionFailed));
    states.push(run);
    run.step(Event::CountdownEnded);
    states.push(run);
    states
}

#[test]
fn an_interrupt_cancels_at_any_point() {
    for state in at_every_stage() {
        let mut run = state;
        let mut flag = CancellationFlag::new();
        let plan = on_interrupt(&mut flag, &mut run, Some(4096));
        assert!(flag.is_raised());
        assert_eq!(plan.action, Action::Finish(Outcome::Cancelled));
        assert_eq!(plan.exit_code, 1);
        assert_eq!(plan.downloaded_kib, 4);
        assert_eq!(run.stage, Stage::Done(Outcome::Cancelled));
        assert_eq!(run.file, None);
        assert_eq!(run.attempts, state.attempts);
        // Nothing restarts a cancelled run.
        assert_eq!(run.step(Event::CountdownEnded), Action::Ignore);
        assert_eq!(run.step(Event::Probed(None)), Action::Ignore);
        assert_eq!(run.file, None);
    }
}

#[test]
fn an_interrupt_through_the_machine_alone_cancels_too() {
    for state in at_every_stage() {
        let mut run = state;
        assert_eq!(run.step(Event::Interrupted), Action::Finish(Outcome::Cancelled));
        assert_eq!(run.file, None);
    }
}

#[test]
fn an_interrupt_after_the_end_changes_nothing() {
    let mut run = Orchestrator::new();
    run.step(Event::Probed(None));
    run.step(Event::AttemptEnded(AttemptReport::StreamEnded { bytes: 2048 }));
    let done = run;
    let mut flag = CancellationFlag::new();
    let plan = on_interrupt(&mut flag, &mut run, Some(2048));
    assert_eq!(plan.action, Action::Ignore);
    assert_eq!(plan.exit_code, 0);
    assert_eq!(plan.downloaded_kib, 2);
    assert_eq!(run, done);
    assert_eq!(run.file, Some(2048));
}

#[test]
fn an_unreadable_size_is_shown_as_zero() {
    let mut run = Orchestrator::new();
    let mut flag = CancellationFlag::new();
    let plan = on_interrupt(&mut flag, &mut run, None);
    assert_eq!(plan.downloaded_kib, 0);
    let mut run = Orchestrator::new();
    let plan = on_interrupt(&mut flag, &mut run, Some(1023));
    assert_eq!(plan.downloaded_kib, 0);
}
