use vstd::prelude::*;

use crate::error::Error;

verus! {

/// A terminal size, in character cells.
#[derive(Clone, Copy, Debug, PartialEq, Eq, Structural)]
pub struct Size {
    pub rows: u16,
    pub cols: u16,
}

impl Size {
    /// Builds a size of `rows` rows and `cols` columns.
    pub fn new(rows: u16, cols: u16) -> (r: Size)
        ensures
            r.rows == rows,
            r.cols == cols,
    {
        Size { rows, cols }
    }
}

/// The pty contract: a collaborator that owns a pseudo-terminal pair.
///
/// Implementors supply the concrete device: opening the pair, resizing it,
/// and handing out the subordinate side. The spawn logic is verified against
/// the contracts below; an implementation outside this crate is trusted to
/// meet them.
pub trait Pty: Sized {
    /// The controlling-side handle exposed to the caller for reading and
    /// writing.
    type Pt;

    /// Identity of the underlying terminal device, for specification
    /// purposes: every descriptor derived from this pty refers to it.
    /// Unspecified unless the implementation says otherwise.
    open spec fn device(&self) -> int {
        vstd::pervasive::arbitrary()
    }

    /// The raw descriptor of the controlling side.
    /// Unspecified unless the implementation says otherwise.
    open spec fn pt_fd(&self) -> i32 {
        vstd::pervasive::arbitrary()
    }

    /// The size last applied to the pty, if any.
    /// Unspecified unless the implementation says otherwise.
    open spec fn size(&self) -> Option<Size> {
        vstd::pervasive::arbitrary()
    }

    /// The controlling-side handle, for specification purposes.
    /// Unspecified unless the implementation says otherwise.
    open spec fn pt_view(&self) -> Self::Pt {
        vstd::pervasive::arbitrary()
    }

    /// How many window-change notifications the terminal has delivered to
    /// its foreground process group so far, one per applied resize.
    /// Unspecified unless the implementation says otherwise.
    open spec fn winch_notices(&self) -> nat {
        vstd::pervasive::arbitrary()
    }

    /// Opens a fresh pty pair.
    fn pty_new() -> (r: Result<Self, Error>)
        ensures
            r matches Err(e) ==> e == Error::PtyCreationError,
            r matches Ok(p) ==> 0 <= p.pt_fd() && p.winch_notices() == 0,
    ;

    /// Applies `size` to the pty. As a side effect the OS delivers a
    /// window-change notification (SIGWINCH) to the foreground process group
    /// of the terminal.
    fn resize(&mut self, size: &Size) -> (r: Result<(), Error>)
        ensures
            r matches Ok(u) ==> final(self).size() == Some(*size),
            r matches Ok(u) ==> final(self).device() == old(self).device()
                && final(self).pt_fd() == old(self).pt_fd()
                && final(self).pt_view() == old(self).pt_view(),
            r matches Ok(u) ==> final(self).winch_notices() == old(self).winch_notices() + 1,
            r matches Err(e) ==> e == Error::ResizeError && *final(self) == *old(self),
    ;

    /// Opens the subordinate side and returns its raw descriptor. The
    /// returned descriptor refers to the same terminal device as the
    /// controlling side.
    fn pts(&self) -> (r: Result<i32, Error>)
        ensures
            r matches Err(e) ==> e == Error::PtyCreationError,
            r matches Ok(fd) ==> 0 <= fd,
    ;

    /// The raw descriptor of the controlling side.
    fn raw_pt_fd(&self) -> (r: i32)
        ensures
            r == self.pt_fd(),
    ;

    /// A reference to the controlling-side handle.
    fn pt(&self) -> (r: &Self::Pt)
        ensures
            *r == self.pt_view(),
    ;

    /// A mutable reference to the controlling-side handle.
    fn pt_mut(&mut self) -> (r: &mut Self::Pt)
        ensures
            *r == old(self).pt_view(),
            final(self).pt_view() == *final(r),
            final(self).device() == old(self).device(),
            final(self).pt_fd() == old(self).pt_fd(),
            final(self).size() == old(self).size(),
            final(self).winch_notices() == old(self).winch_notices(),
    ;
}

} // verus!
