use vstd::prelude::*;

verus! {

/// Highest signal number the kernel delivers (real-time signals included).
pub const MAX_SIGNAL: i32 = 64;

/// Exit code reported for every failure of the launch itself.
pub const FAILURE_CODE: i32 = 1;

/// Offset added to a signal number when the child was killed by that signal.
pub const SIGNAL_BASE: i32 = 128;

/// What waiting on the child observed.
#[derive(Debug, Clone, Copy, PartialEq, Eq, Structural)]
pub enum WaitOutcome {
    /// The child exited with this status.
    Exited(i32),
    /// The child was terminated by this signal number.
    Signaled(i32),
    /// Any other state change (stopped, continued, a trace event).
    Other,
}

/// The failures a launch can end in.
#[derive(Debug, Clone, Copy, PartialEq, Eq, Structural)]
pub enum RunError {
    InterfaceNotFound,
    BasePathError,
    CreateError,
    ProgramOpenError,
    ProgramLoadError,
    AttachmentError,
    ProcessCreationError,
    UnsupportedWaitState,
}

/// How a launch ends: an exit code to report, or a failure.
#[derive(Debug, Clone, Copy, PartialEq, Eq, Structural)]
pub enum Outcome {
    Code(i32),
    Failed(RunError),
}

/// A signal number that can terminate a process.
pub open spec fn supported_signal(n: i32) -> bool {
    1 <= n <= MAX_SIGNAL
}

/// The outcome that a wait observation stands for.
pub open spec fn outcome_of(w: WaitOutcome) -> Outcome {
    match w {
        WaitOutcome::Exited(status) => Outcome::Code(status),
        WaitOutcome::Signaled(n) => if supported_signal(n) {
            Outcome::Code((SIGNAL_BASE + n) as i32)
        } else {
            Outcome::Failed(RunError::UnsupportedWaitState)
        },
        WaitOutcome::Other => Outcome::Failed(RunError::UnsupportedWaitState),
    }
}

/// Maps what waiting on the child observed to the outcome of the run: the
/// child's own status, `128 + n` for a signal `n`, and a failure for any
/// other state change.
pub fn exit_code(w: WaitOutcome) -> (r: Outcome)
    ensures
        r == outcome_of(w),
        w matches WaitOutcome::Exited(s) ==> r == Outcome::Code(s),
        w matches WaitOutcome::Signaled(n) ==> (supported_signal(n) ==> r == Outcome::Code(
            (128 + n) as i32,
        )),
{
    match w {
        WaitOutcome::Exited(status) => Outcome::Code(status),
        WaitOutcome::Signaled(n) => {
            if 1 <= n && n <= MAX_SIGNAL {
                Outcome::Code(SIGNAL_BASE + n)
            } else {
                Outcome::Failed(RunError::UnsupportedWaitState)
            }
        },
        WaitOutcome::Other => Outcome::Failed(RunError::UnsupportedWaitState),
    }
}

/// The process exit status that reports an outcome: the code itself, or
/// the uniform failure code.
pub fn exit_status(o: Outcome) -> (r: i32)
    ensures
        o matches Outcome::Code(c) ==> r == c,
        o is Failed ==> r == FAILURE_CODE,
{
    match o {
        Outcome::Code(c) => c,
        Outcome::Failed(_) => FAILURE_CODE,
    }
}

/// Where an interrupt goes, given the published child id: to that child,
/// or nowhere while no child has been published (the id is zero).
pub open spec fn relay_of(published: i32) -> Option<i32> {
    if published > 0 {
        Some(published)
    } else {
        None
    }
}

/// The process that an interrupt is forwarded to, given the published child
/// id.
pub fn relay_target(published: i32) -> (r: Option<i32>)
    ensures
        r == relay_of(published),
{
    if published > 0 {
        Some(published)
    } else {
        None
    }
}

} // verus!
