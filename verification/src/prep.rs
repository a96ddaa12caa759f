use vstd::prelude::*;

use crate::error::Error;

verus! {

/// The data the in-child preparation step works on: the five raw descriptors
/// retained at spawn time, captured by value.
///
/// The preparation step runs in a process that has been duplicated but has
/// not yet replaced its program image, where only direct system calls are
/// safe. Capturing plain descriptor numbers by value keeps the step free of
/// allocation, locks and shared mutable state.
#[derive(Clone, Copy, Debug, PartialEq, Eq, Structural)]
pub struct PreExecContext {
    /// Controlling side of the pty (kept by the parent).
    pub pt_fd: i32,
    /// Original subordinate side of the pty.
    pub pts_fd: i32,
    /// Duplicate of the subordinate side destined for stdin.
    pub stdin_fd: i32,
    /// Duplicate of the subordinate side destined for stdout.
    pub stdout_fd: i32,
    /// Duplicate of the subordinate side destined for stderr.
    pub stderr_fd: i32,
}

/// One operation of the in-child preparation sequence.
#[derive(Clone, Copy, Debug, PartialEq, Eq, Structural)]
pub enum PrepAction {
    /// Make the child a new session leader.
    NewSession,
    /// Make the terminal behind this descriptor the controlling terminal.
    SetControllingTerminal(i32),
    /// Close this descriptor.
    CloseFd(i32),
}

/// The exact sequence of operations the child must perform, in order:
/// become a session leader, adopt the subordinate pty as controlling
/// terminal, then close every retained descriptor — the pty pair first, then
/// the three stdio duplicates, which the process builder has already
/// installed as descriptors 0, 1 and 2.
pub open spec fn prep_plan(ctx: PreExecContext) -> Seq<PrepAction> {
    seq![
        PrepAction::NewSession,
        PrepAction::SetControllingTerminal(ctx.pts_fd),
        PrepAction::CloseFd(ctx.pt_fd),
        PrepAction::CloseFd(ctx.pts_fd),
        PrepAction::CloseFd(ctx.stdin_fd),
        PrepAction::CloseFd(ctx.stdout_fd),
        PrepAction::CloseFd(ctx.stderr_fd),
    ]
}

impl PreExecContext {
    /// The action to perform at position `step` of the preparation
    /// sequence, or `None` once preparation is complete.
    ///
    /// The executor in the forked child calls this with `step` counting up
    /// from zero and performs each action until `None`; a failing action
    /// aborts the pending execution with the OS error code. The function
    /// allocates nothing, so it is safe to call in that context.
    pub fn action(&self, step: usize) -> (r: Option<PrepAction>)
        ensures
            step < prep_plan(*self).len() ==> r == Some(prep_plan(*self)[step as int]),
            step >= prep_plan(*self).len() ==> r is None,
    {
        if step == 0 {
            Some(PrepAction::NewSession)
        } else if step == 1 {
            Some(PrepAction::SetControllingTerminal(self.pts_fd))
        } else if step == 2 {
            Some(PrepAction::CloseFd(self.pt_fd))
        } else if step == 3 {
            Some(PrepAction::CloseFd(self.pts_fd))
        } else if step == 4 {
            Some(PrepAction::CloseFd(self.stdin_fd))
        } else if step == 5 {
            Some(PrepAction::CloseFd(self.stdout_fd))
        } else if step == 6 {
            Some(PrepAction::CloseFd(self.stderr_fd))
        } else {
            None
        }
    }
}

/// Maps the outcome of running the preparation sequence to this library's
/// error: a failing step, reported by its OS error code, becomes
/// `PreExecError` carrying that code.
pub fn prep_outcome(step_result: Result<(), i32>) -> (r: Result<(), Error>)
    ensures
        step_result matches Ok(u) ==> r == Ok::<(), Error>(()),
        step_result matches Err(code) ==> r == Err::<(), Error>(Error::PreExecError(code)),
{
    match step_result {
        Ok(()) => Ok(()),
        Err(code) => Err(Error::PreExecError(code)),
    }
}

} // verus!
