use vstd::prelude::*;
use crate::outcome::{exit_code, outcome_of, Outcome, RunError, WaitOutcome};

verus! {

/// Where a launch stands.
///
/// A launch resolves the interface, loads the hook program with its index,
/// creates the transient cgroup, attaches the two hooks to it, starts the
/// child inside it, reaps the child, and removes the cgroup again before it
/// reports anything.
#[derive(Debug, Clone, Copy, PartialEq, Eq, Structural)]
pub enum Stage {
    /// Waiting for the interface index.
    Resolving,
    /// Waiting for the hook program to be opened, configured and loaded.
    Loading,
    /// Waiting for the transient cgroup to be created.
    Creating,
    /// Waiting for the socket-creation hook to be attached.
    AttachingCreate,
    /// Waiting for the setsockopt hook to be attached.
    AttachingSockopt,
    /// Waiting for the child to be started inside the cgroup.
    Launching,
    /// The child with this id runs; waiting for it to change state.
    Running(i32),
    /// Waiting for the cgroup to be removed; then this outcome is reported.
    Removing(Outcome),
    /// The outcome has been reported.
    Done,
}

/// What the surrounding program observed after performing the last action.
#[derive(Debug, Clone, Copy, PartialEq, Eq, Structural)]
pub enum Event {
    /// The interface has this index.
    Resolved(u32),
    /// No interface of that name is known.
    NotFound,
    /// The hook program object could not be opened.
    OpenFailed,
    /// The kernel rejected the hook program.
    LoadFailed,
    /// The hook program is loaded, its index set.
    Loaded,
    /// The base cgroup directory could not be opened.
    BasePathMissing,
    /// The cgroup directory could not be made.
    CreateFailed,
    /// The cgroup directory was made but could not be opened.
    CreatedUnopened,
    /// The cgroup directory was made and opened.
    Created,
    /// The hook asked for was attached.
    Attached,
    /// The hook asked for could not be attached.
    AttachFailed,
    /// A child with this id was started inside the cgroup.
    Launched(i32),
    /// No child could be started.
    LaunchFailed,
    /// Waiting on the child observed this.
    Reaped(WaitOutcome),
    /// The cgroup directory was removed, or removing it failed.
    Removed,
}

/// What the surrounding program is to do next.
#[derive(Debug, Clone, Copy, PartialEq, Eq, Structural)]
pub enum Action {
    /// Open the hook program, write this interface index into its
    /// configuration, and load it.
    LoadProgram(u32),
    /// Create the transient cgroup under the base path.
    CreateCgroup,
    /// Attach the socket-creation hook to the cgroup.
    AttachSockCreate,
    /// Attach the setsockopt hook to the cgroup.
    AttachSetsockopt,
    /// Start the child inside the cgroup.
    Launch,
    /// Publish this child id for the interrupt relay, then wait on it.
    Reap(i32),
    /// Remove the cgroup directory.
    RemoveCgroup,
    /// Report this outcome and stop.
    Finish(Outcome),
    /// The event did not fit the stage; nothing to do.
    Ignore,
}

/// The stages during which the transient cgroup directory exists.
pub open spec fn holds_cgroup(s: Stage) -> bool {
    match s {
        Stage::AttachingCreate | Stage::AttachingSockopt | Stage::Launching | Stage::Running(
            _,
        ) | Stage::Removing(_) => true,
        _ => false,
    }
}

/// A failure before any cgroup exists: reported at once.
pub open spec fn fail(e: RunError) -> (Stage, Action) {
    (Stage::Done, Action::Finish(Outcome::Failed(e)))
}

/// An end while the cgroup exists: the cgroup goes first, then `o` is reported.
pub open spec fn release(o: Outcome) -> (Stage, Action) {
    (Stage::Removing(o), Action::RemoveCgroup)
}

/// The child id that the interrupt relay is to see in a stage: the running
/// child's, else zero.
pub open spec fn published(s: Stage) -> i32 {
    match s {
        Stage::Running(p) => p,
        _ => 0,
    }
}

impl Stage {
    /// The stage and action that follow an event.
    pub open spec fn next(self, e: Event) -> (Stage, Action) {
        match self {
            Stage::Resolving => match e {
                Event::Resolved(i) => if i > 0 {
                    (Stage::Loading, Action::LoadProgram(i))
                } else {
                    fail(RunError::InterfaceNotFound)
                },
                Event::NotFound => fail(RunError::InterfaceNotFound),
                _ => (self, Action::Ignore),
            },
            Stage::Loading => match e {
                Event::Loaded => (Stage::Creating, Action::CreateCgroup),
                Event::OpenFailed => fail(RunError::ProgramOpenError),
                Event::LoadFailed => fail(RunError::ProgramLoadError),
                _ => (self, Action::Ignore),
            },
            Stage::Creating => match e {
                Event::Created => (Stage::AttachingCreate, Action::AttachSockCreate),
                Event::BasePathMissing => fail(RunError::BasePathError),
                Event::CreateFailed => fail(RunError::CreateError),
                Event::CreatedUnopened => release(Outcome::Failed(RunError::CreateError)),
                _ => (self, Action::Ignore),
            },
            Stage::AttachingCreate => match e {
                Event::Attached => (Stage::AttachingSockopt, Action::AttachSetsockopt),
                Event::AttachFailed => release(Outcome::Failed(RunError::AttachmentError)),
                _ => (self, Action::Ignore),
            },
            Stage::AttachingSockopt => match e {
                Event::Attached => (Stage::Launching, Action::Launch),
                Event::AttachFailed => release(Outcome::Failed(RunError::AttachmentError)),
                _ => (self, Action::Ignore),
            },
            Stage::Launching => match e {
                Event::Launched(p) => if p > 0 {
                    (Stage::Running(p), Action::Reap(p))
                } else {
                    release(Outcome::Failed(RunError::ProcessCreationError))
                },
                Event::LaunchFailed => release(Outcome::Failed(RunError::ProcessCreationError)),
                _ => (self, Action::Ignore),
            },
            Stage::Running(_) => match e {
                Event::Reaped(w) => release(outcome_of(w)),
                _ => (self, Action::Ignore),
            },
            Stage::Removing(o) => match e {
                Event::Removed => (Stage::Done, Action::Finish(o)),
                _ => (self, Action::Ignore),
            },
            Stage::Done => (self, Action::Ignore),
        }
    }

    /// The stage a launch starts in: the interface is looked up first.
    pub fn new() -> (r: Stage)
        ensures
            r == Stage::Resolving,
    {
        Stage::Resolving
    }

    /// The child id to publish for the interrupt relay: the running child's,
    /// else zero.
    pub fn published_child(&self) -> (r: i32)
        ensures
            r == published(*self),
    {
        match *self {
            Stage::Running(p) => p,
            _ => 0,
        }
    }

    /// Takes in what the last action led to and says what to do next.
    pub fn step(&mut self, e: Event) -> (r: Action)
        ensures
            (*final(self), r) == old(self).next(e),
    {
        let (s, a) = match *self {
            Stage::Resolving => match e {
                Event::Resolved(i) => if i > 0 {
                    (Stage::Loading, Action::LoadProgram(i))
                } else {
                    (Stage::Done, Action::Finish(Outcome::Failed(RunError::InterfaceNotFound)))
                },
                Event::NotFound => (
                    Stage::Done,
                    Action::Finish(Outcome::Failed(RunError::InterfaceNotFound)),
                ),
                _ => (*self, Action::Ignore),
            },
            Stage::Loading => match e {
                Event::Loaded => (Stage::Creating, Action::CreateCgroup),
                Event::OpenFailed => (
                    Stage::Done,
                    Action::Finish(Outcome::Failed(RunError::ProgramOpenError)),
                ),
                Event::LoadFailed => (
                    Stage::Done,
                    Action::Finish(Outcome::Failed(RunError::ProgramLoadError)),
                ),
                _ => (*self, Action::Ignore),
            },
            Stage::Creating => match e {
                Event::Created => (Stage::AttachingCreate, Action::AttachSockCreate),
                Event::BasePathMissing => (
                    Stage::Done,
                    Action::Finish(Outcome::Failed(RunError::BasePathError)),
                ),
                Event::CreateFailed => (
                    Stage::Done,
                    Action::Finish(Outcome::Failed(RunError::CreateError)),
                ),
                Event::CreatedUnopened => (
                    Stage::Removing(Outcome::Failed(RunError::CreateError)),
                    Action::RemoveCgroup,
                ),
                _ => (*self, Action::Ignore),
            },
            Stage::AttachingCreate => match e {
                Event::Attached => (Stage::AttachingSockopt, Action::AttachSetsockopt),
                Event::AttachFailed => (
                    Stage::Removing(Outcome::Failed(RunError::AttachmentError)),
                    Action::RemoveCgroup,
                ),
                _ => (*self, Action::Ignore),
            },
            Stage::AttachingSockopt => match e {
                Event::Attached => (Stage::Launching, Action::Launch),
                Event::AttachFailed => (
                    Stage::Removing(Outcome::Failed(RunError::AttachmentError)),
                    Action::RemoveCgroup,
                ),
                _ => (*self, Action::Ignore),
            },
            Stage::Launching => match e {
                Event::Launched(p) => if p > 0 {
                    (Stage::Running(p), Action::Reap(p))
                } else {
                    (
                        Stage::Removing(Outcome::Failed(RunError::ProcessCreationError)),
                        Action::RemoveCgroup,
                    )
                },
                Event::LaunchFailed => (
                    Stage::Removing(Outcome::Failed(RunError::ProcessCreationError)),
                    Action::RemoveCgroup,
                ),
                _ => (*self, Action::Ignore),
            },
            Stage::Running(_) => match e {
                Event::Reaped(w) => (Stage::Removing(exit_code(w)), Action::RemoveCgroup),
                _ => (*self, Action::Ignore),
            },
            Stage::Removing(o) => match e {
                Event::Removed => (Stage::Done, Action::Finish(o)),
                _ => (*self, Action::Ignore),
            },
            Stage::Done => (*self, Action::Ignore),
        };
        *self = s;
        a
    }
}

} // verus!
