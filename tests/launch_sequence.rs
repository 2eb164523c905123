use cgroup_sock::outcome::{Outcome, RunError, WaitOutcome};
use cgroup_sock::session::{Action, Event, Stage};

fn drive(events: &[Event]) -> (Stage, Vec<Action>) {
    let mut stage = Stage::new();
    let mut actions = Vec::new();
    for e in events {
        actions.push(stage.step(*e));
    }
    (stage, actions)
}

#[test]
fn successful_launch_runs_every_step_in_order() {
    let (stage, actions) = drive(&[
        Event::Resolved(7),
        Event::Loaded,
        Event::Created,
        Event::Attached,
        Event::Attached,
        Event::Launched(1234),
        Event::Reaped(WaitOutcome::Exited(0)),
        Event::Removed,
    ]);
    assert_eq!(
        actions,
        vec![
            Action::LoadProgram(7),
            Action::CreateCgroup,
            Action::AttachSockCreate,
            Action::AttachSetsockopt,
            Action::Launch,
            Action::Reap(1234),
            Action::RemoveCgroup,
            Action::Finish(Outcome::Code(0)),
        ]
    );
    assert_eq!(stage, Stage::Done);
}

#[test]
fn child_exit_status_is_reported() {
    let (_, actions) = drive(&[
        Event::Resolved(2),
        Event::Loaded,
        Event::Created,
        Event::Attached,
        Event::Attached,
        Event::Launched(99),
        Event::Reaped(WaitOutcome::Exited(42)),
        Event::Removed,
    ]);
    assert_eq!(actions.last(), Some(&Action::Finish(Outcome::Code(42))));
}

#[test]
fn interrupted_child_reports_128_plus_signal() {
    let mut stage = Stage::new();
    stage.step(Event::Resolved(3));
    stage.step(Event::Loaded);
    stage.step(Event::Created);
    stage.step(Event::Attached);
    stage.step(Event::Attached);
    assert_eq!(stage.published_child(), 0);
    assert_eq!(stage.step(Event::Launched(555)), Action::Reap(555));
    assert_eq!(stage.published_child(), 555);
    assert_eq!(
        cgroup_sock::outcome::relay_target(stage.published_child()),
        Some(555)
    );
    assert_eq!(
        stage.step(Event::Reaped(WaitOutcome::Signaled(2))),
        Action::RemoveCgroup
    );
    assert_eq!(stage.published_child(), 0);
    assert_eq!(
        stage.step(Event::Removed),
        Action::Finish(Outcome::Code(130))
    );
}

#[test]
fn unknown_interface_stops_before_anything_else() {
    let (stage, actions) = drive(&[Event::NotFound, Event::Loaded, Event::Created]);
    assert_eq!(
        actions,
        vec![
            Action::Finish(Outcome::Failed(RunError::InterfaceNotFound)),
            Action::Ignore,
            Action::Ignore,
        ]
    );
    assert_eq!(stage, Stage::Done);
}

#[test]
fn zero_interface_index_counts_as_unknown() {
    let (_, actions) = drive(&[Event::Resolved(0)]);
    assert_eq!(
        actions,
        vec![Action::Finish(Outcome::Failed(RunError::InterfaceNotFound))]
    );
}

#[test]
fn rejected_program_stops_before_cgroup() {
    let (stage, actions) = drive(&[Event::Resolved(5), Event::LoadFailed, Event::Created]);
    assert_eq!(
        actions,
        vec![
            Action::LoadProgram(5),
            Action::Finish(Outcome::Failed(RunError::ProgramLoadError)),
            Action::Ignore,
        ]
    );
    assert_eq!(stage, Stage::Done);
}

#[test]
fn unreadable_program_object_fails_to_open() {
    let (_, actions) = drive(&[Event::Resolved(5), Event::OpenFailed]);
    assert_eq!(
        actions[1],
        Action::Finish(Outcome::Failed(RunError::ProgramOpenError))
    );
}

#[test]
fn missing_base_path_creates_nothing() {
    let (stage, actions) = drive(&[
        Event::Resolved(5),
        Event::Loaded,
        Event::BasePathMissing,
        Event::Launched(10),
    ]);
    assert_eq!(
        actions,
        vec![
            Action::LoadProgram(5),
            Action::CreateCgroup,
            Action::Finish(Outcome::Failed(RunError::BasePathError)),
            Action::Ignore,
        ]
    );
    assert_eq!(stage, Stage::Done);
}

#[test]
fn cgroup_creation_failure_is_reported() {
    let (_, actions) = drive(&[Event::Resolved(5), Event::Loaded, Event::CreateFailed]);
    assert_eq!(
        actions[2],
        Action::Finish(Outcome::Failed(RunError::CreateError))
    );
}

#[test]
fn unopened_cgroup_is_still_removed() {
    let (_, actions) = drive(&[
        Event::Resolved(5),
        Event::Loaded,
        Event::CreatedUnopened,
        Event::Removed,
    ]);
    assert_eq!(actions[2], Action::RemoveCgroup);
    assert_eq!(
        actions[3],
        Action::Finish(Outcome::Failed(RunError::CreateError))
    );
}

#[test]
fn attach_failure_removes_cgroup_first() {
    let (_, actions) = drive(&[
        Event::Resolved(5),
        Event::Loaded,
        Event::Created,
        Event::Attached,
        Event::AttachFailed,
        Event::Removed,
    ]);
    assert_eq!(actions[4], Action::RemoveCgroup);
    assert_eq!(
        actions[5],
        Action::Finish(Outcome::Failed(RunError::AttachmentError))
    );
}

#[test]
fn launch_failure_removes_cgroup_first() {
    let (_, actions) = drive(&[
        Event::Resolved(5),
        Event::Loaded,
        Event::Created,
        Event::Attached,
        Event::Attached,
        Event::LaunchFailed,
        Event::Removed,
    ]);
    assert_eq!(actions[5], Action::RemoveCgroup);
    assert_eq!(
        actions[6],
        Action::Finish(Outcome::Failed(RunError::ProcessCreationError))
    );
}

#[test]
fn unsupported_wait_state_still_removes_cgroup() {
    let (_, actions) = drive(&[
        Event::Resolved(5),
        Event::Loaded,
        Event::Created,
        Event::Attached,
        Event::Attached,
        Event::Launched(8),
        Event::Reaped(WaitOutcome::Other),
        Event::Removed,
    ]);
    assert_eq!(actions[6], Action::RemoveCgroup);
    assert_eq!(
        actions[7],
        Action::Finish(Outcome::Failed(RunError::UnsupportedWaitState))
    );
}

#[test]
fn events_out_of_turn_are_ignored() {
    let mut stage = Stage::new();
    assert_eq!(stage.step(Event::Removed), Action::Ignore);
    assert_eq!(stage, Stage::Resolving);
    stage.step(Event::Resolved(1));
    assert_eq!(stage.step(Event::Attached), Action::Ignore);
    assert_eq!(stage, Stage::Loading);
}
