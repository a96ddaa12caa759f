//! Spawning a process attached to a freshly created pseudo-terminal.
//!
//! The child's stdin, stdout and stderr are wired to the subordinate side of
//! a new pty, the child is made a session leader with that pty as its
//! controlling terminal, and the caller receives a handle that jointly owns
//! the spawned process and the controlling side of the pty.

pub mod command;
pub mod error;
mod fd;
pub mod model;
pub mod prep;
pub mod pty;
