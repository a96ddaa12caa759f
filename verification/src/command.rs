use vstd::prelude::*;

use crate::error::Error;
use crate::fd::close_fd;
use crate::fd::dup_fd;
use crate::prep::PreExecContext;
use crate::pty::Pty;
use crate::pty::Size;

verus! {

/// The process-builder contract: the minimal capabilities a backend's
/// builder must offer so that the pty-spawn algorithm can be written once.
///
/// Implementors wire three raw descriptors into the future child's stdio
/// slots, register a preparation step to run in the forked child before it
/// executes the target program, and invoke the underlying process-creation
/// primitive. An implementation outside this crate is trusted to meet the
/// contracts below.
pub trait CommandImpl: Sized {
    /// The backend's process handle.
    type Child;

    /// The backend's pty implementation.
    type Pty: Pty;

    /// The stdio descriptors the builder will install as the child's
    /// descriptors 0, 1 and 2, once set.
    /// Unspecified unless the implementation says otherwise.
    open spec fn stdio_spec(&self) -> Option<(i32, i32, i32)> {
        vstd::pervasive::arbitrary()
    }

    /// The registered pre-execution contexts, in order of registration.
    /// Unspecified unless the implementation says otherwise.
    open spec fn hooks_spec(&self) -> Seq<PreExecContext> {
        vstd::pervasive::arbitrary()
    }

    /// How many times the underlying process-creation primitive has been
    /// invoked through this builder.
    /// Unspecified unless the implementation says otherwise.
    open spec fn spawn_count(&self) -> nat {
        vstd::pervasive::arbitrary()
    }

    /// Takes ownership of the three descriptors and arranges for them to
    /// become the child's stdin, stdout and stderr; the builder releases
    /// them in the parent once the spawn attempt is over.
    fn std_fds(&mut self, stdin: i32, stdout: i32, stderr: i32)
        ensures
            final(self).stdio_spec() == Some((stdin, stdout, stderr)),
            final(self).hooks_spec() == old(self).hooks_spec(),
            final(self).spawn_count() == old(self).spawn_count(),
    ;

    /// Registers the in-child preparation step, described by the captured
    /// context; the builder must run the sequence `ctx.action(0..)` in the
    /// forked child, strictly before executing the target program, and
    /// report a failing step's OS error code through the spawn result.
    fn pre_exec_impl(&mut self, ctx: PreExecContext)
        ensures
            final(self).hooks_spec() == old(self).hooks_spec().push(ctx),
            final(self).stdio_spec() == old(self).stdio_spec(),
            final(self).spawn_count() == old(self).spawn_count(),
    ;

    /// Invokes the underlying process-creation primitive once, returning
    /// the new process handle or the OS error code of the failure
    /// (including a failure reported from the in-child preparation step).
    fn spawn_impl(&mut self) -> (r: Result<Self::Child, i32>)
        ensures
            final(self).stdio_spec() == old(self).stdio_spec(),
            final(self).hooks_spec() == old(self).hooks_spec(),
            final(self).spawn_count() == old(self).spawn_count() + 1,
    ;
}

/// A spawned process together with the pty it is attached to.
///
/// The handle jointly owns the process handle and the pty; dropping it
/// releases the controlling side of the pty through ordinary resource
/// cleanup.
pub struct Child<C, P> {
    child: C,
    pty: P,
}

impl<C, P> Child<C, P> {
    /// The owned pty, for specification purposes.
    pub closed spec fn pty_view(&self) -> P {
        self.pty
    }

    /// The owned process handle, for specification purposes.
    pub closed spec fn child_view(&self) -> C {
        self.child
    }
}

impl<C, P: Pty> Child<C, P> {
    /// Returns a reference to the controlling side of the pty, for the
    /// caller's own read and write use.
    pub fn pty(&self) -> (r: &P::Pt)
        ensures
            *r == self.pty_view().pt_view(),
    {
        self.pty.pt()
    }

    /// Returns a mutable reference to the controlling side of the pty.
    pub fn pty_mut(&mut self) -> (r: &mut P::Pt)
        ensures
            *r == old(self).pty_view().pt_view(),
            final(self).pty_view().pt_view() == *final(r),
            final(self).pty_view().device() == old(self).pty_view().device(),
            final(self).pty_view().pt_fd() == old(self).pty_view().pt_fd(),
            final(self).pty_view().size() == old(self).pty_view().size(),
            final(self).pty_view().winch_notices() == old(self).pty_view().winch_notices(),
            final(self).child_view() == old(self).child_view(),
    {
        self.pty.pt_mut()
    }

    /// Changes the pty's size. As a side effect the OS delivers a
    /// window-change notification (SIGWINCH) to the child.
    pub fn resize_pty(&mut self, size: &Size) -> (r: Result<(), Error>)
        ensures
            r is Ok ==> final(self).pty_view().size() == Some(*size),
            r is Ok ==> final(self).pty_view().winch_notices() == old(
                self,
            ).pty_view().winch_notices() + 1,
            r is Ok ==> final(self).pty_view().device() == old(self).pty_view().device()
                && final(self).pty_view().pt_fd() == old(self).pty_view().pt_fd()
                && final(self).pty_view().pt_view() == old(self).pty_view().pt_view(),
            r matches Err(e) ==> e == Error::ResizeError && *final(self) == *old(self),
            final(self).child_view() == old(self).child_view(),
    {
        self.pty.resize(size)
    }

    /// Returns a reference to the owned process handle, for querying,
    /// waiting or terminating through the backend's own operations.
    pub fn process(&self) -> (r: &C)
        ensures
            *r == self.child_view(),
    {
        &self.child
    }

    /// Returns a mutable reference to the owned process handle.
    pub fn process_mut(&mut self) -> (r: &mut C)
        ensures
            *r == old(self).child_view(),
            final(self).child_view() == *final(r),
            final(self).pty_view() == old(self).pty_view(),
    {
        &mut self.child
    }
}

/// Adds pty-attached spawning to a process builder.
///
/// Implemented once, below, for every builder that satisfies the
/// process-builder contract.
pub trait Command: CommandImpl {
    /// Creates a new pty, wires the builder's stdin, stdout and stderr to
    /// three duplicates of its subordinate side, registers the in-child
    /// preparation step, and invokes the underlying spawn primitive.
    ///
    /// On success the returned handle owns the new process and the pty,
    /// sized as requested; the builder holds exactly one more registered
    /// preparation context, whose descriptors are the ones wired into the
    /// stdio slots and the pty pair's own. On a setup failure nothing was
    /// spawned and the builder is untouched; every descriptor created
    /// before the failure has been released.
    fn spawn_pty(&mut self, size: Option<&Size>) -> (r: Result<
        Child<Self::Child, Self::Pty>,
        Error,
    >)
        ensures
            r matches Ok(c) ==> ({
                let ctx = final(self).hooks_spec().last();
                &&& final(self).hooks_spec() == old(self).hooks_spec().push(ctx)
                &&& final(self).stdio_spec() == Some(
                    (ctx.stdin_fd, ctx.stdout_fd, ctx.stderr_fd),
                )
                &&& final(self).spawn_count() == old(self).spawn_count() + 1
                &&& ctx.pt_fd == c.pty_view().pt_fd()
                &&& 0 <= ctx.pt_fd && 0 <= ctx.pts_fd && 0 <= ctx.stdin_fd && 0 <= ctx.stdout_fd
                    && 0 <= ctx.stderr_fd
                &&& (size matches Some(s) ==> c.pty_view().size() == Some(*s)
                    && c.pty_view().winch_notices() == 1)
                &&& (size is None ==> c.pty_view().winch_notices() == 0)
            }),
            r matches Err(e) ==> (e is PtyCreationError || e is ResizeError
                || e is DescriptorDuplicationError || e is SpawnError),
            r matches Err(e) && !(e is SpawnError) ==> *final(self) == *old(self)
                && final(self).spawn_count() == old(self).spawn_count(),
            r matches Err(e) && e is SpawnError ==> ({
                let ctx = final(self).hooks_spec().last();
                &&& final(self).spawn_count() == old(self).spawn_count() + 1
                &&& final(self).hooks_spec() == old(self).hooks_spec().push(ctx)
                &&& final(self).stdio_spec() == Some(
                    (ctx.stdin_fd, ctx.stdout_fd, ctx.stderr_fd),
                )
            }),
            r matches Err(e) && e is ResizeError ==> size is Some,
    ;
}

impl<T: CommandImpl> Command for T {
    fn spawn_pty(&mut self, size: Option<&Size>) -> (r: Result<
        Child<Self::Child, Self::Pty>,
        Error,
    >) {
        let (pty, pts_fd, stdin_fd, stdout_fd, stderr_fd) =
            match setup_pty::<Self::Pty>(size) {
            Ok(t) => t,
            Err(e) => {
                return Err(e);
            },
        };

        let pt_fd = pty.raw_pt_fd();
        self.std_fds(stdin_fd, stdout_fd, stderr_fd);
        let ctx = PreExecContext { pt_fd, pts_fd, stdin_fd, stdout_fd, stderr_fd };
        self.pre_exec_impl(ctx);

        match self.spawn_impl() {
            Ok(child) => {
                let _ = close_fd(pts_fd);
                Ok(Child { child, pty })
            },
            Err(code) => {
                let _ = close_fd(pts_fd);
                Err(Error::SpawnError(code))
            },
        }
    }
}

/// Creates the pty pair, applies the requested size, and duplicates the
/// subordinate side three times, once for each stdio slot of the future
/// child.
///
/// On success returns the pty, the subordinate descriptor, and the three
/// duplicates — exactly three, whatever size was requested. On a
/// duplication failure every descriptor obtained before the failure is
/// closed before the error is returned.
fn setup_pty<P: Pty>(size: Option<&Size>) -> (r: Result<(P, i32, i32, i32, i32), Error>)
    ensures
        r matches Ok(t) ==> ({
            &&& (size matches Some(s) ==> t.0.size() == Some(*s) && t.0.winch_notices() == 1)
            &&& (size is None ==> t.0.winch_notices() == 0)
            &&& 0 <= t.0.pt_fd()
            &&& 0 <= t.1 && 0 <= t.2 && 0 <= t.3 && 0 <= t.4
        }),
        r matches Err(e) ==> (e is PtyCreationError || e is ResizeError
            || e is DescriptorDuplicationError),
        r matches Err(e) && e is ResizeError ==> size is Some,
{
    let mut pty = match P::pty_new() {
        Ok(p) => p,
        Err(e) => {
            return Err(e);
        },
    };

    if let Some(s) = size {
        match pty.resize(s) {
            Ok(u) => {},
            Err(e) => {
                return Err(e);
            },
        }
    }

    let pts_fd = match pty.pts() {
        Ok(fd) => fd,
        Err(e) => {
            return Err(e);
        },
    };

    let stdin_fd = match dup_fd(pts_fd) {
        Ok(fd) => fd,
        Err(code) => {
            let _ = close_fd(pts_fd);
            return Err(Error::DescriptorDuplicationError(code));
        },
    };

    let stdout_fd = match dup_fd(pts_fd) {
        Ok(fd) => fd,
        Err(code) => {
            let _ = close_fd(stdin_fd);
            let _ = close_fd(pts_fd);
            return Err(Error::DescriptorDuplicationError(code));
        },
    };

    let stderr_fd = match dup_fd(pts_fd) {
        Ok(fd) => fd,
        Err(code) => {
            let _ = close_fd(stdout_fd);
            let _ = close_fd(stdin_fd);
            let _ = close_fd(pts_fd);
            return Err(Error::DescriptorDuplicationError(code));
        },
    };

    Ok((pty, pts_fd, stdin_fd, stdout_fd, stderr_fd))
}

} // verus!
