use vstd::prelude::*;

verus! {

/// The ways a pty-attached spawn can fail.
#[derive(Clone, Copy, Debug, PartialEq, Eq, Structural)]
pub enum Error {
    /// The pty device could not be created.
    PtyCreationError,
    /// The pty rejected the requested size.
    ResizeError,
    /// Duplicating the subordinate descriptor failed; carries the OS error code.
    DescriptorDuplicationError(i32),
    /// A step of the in-child preparation failed; carries the OS error code.
    PreExecError(i32),
    /// The underlying process-creation primitive failed; carries the OS error code.
    SpawnError(i32),
}

} // verus!
