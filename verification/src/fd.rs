use vstd::prelude::*;

verus! {

/// Relies on nix::unistd::dup: on success the OS returns a nonnegative
/// descriptor referring to the same open file description as the argument;
/// on failure it reports the OS error code.
#[verifier::external_body]
pub(crate) fn dup_fd(fd: i32) -> (r: Result<i32, i32>)
    ensures
        r matches Ok(nfd) ==> 0 <= nfd,
{
    match nix::unistd::dup(fd) {
        Ok(nfd) => Ok(nfd),
        Err(e) => Err(e as i32),
    }
}

/// Relies on nix::unistd::close: releases the descriptor, reporting the OS
/// error code on failure.
#[verifier::external_body]
pub(crate) fn close_fd(fd: i32) -> (r: Result<(), i32>)
{
    match nix::unistd::close(fd) {
        Ok(()) => Ok(()),
        Err(e) => Err(e as i32),
    }
}

} // verus!
