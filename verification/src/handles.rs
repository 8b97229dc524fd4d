//! The data the handle logic reads of an OS resource: the descriptor number
//! and whether child processes would inherit it by default.

use vstd::prelude::*;

verus! {

/// One entry of the process's handle table, as the acquisition logic sees
/// it: the descriptor number the operating system chose, and whether a
/// child process spawned through the standard mechanism would inherit it.
#[derive(Clone, Copy, PartialEq, Eq, Structural, Debug)]
pub struct Handle {
    /// The descriptor number.
    pub id: u64,
    /// Whether a child spawned through the standard mechanism inherits it.
    pub inheritable: bool,
}

/// The two endpoints of one anonymous pipe, produced together by one
/// acquisition: bytes written to `write` become readable, in order, on
/// `read`.  Each endpoint is owned and released independently.
#[derive(Clone, Copy, PartialEq, Eq, Structural, Debug)]
pub struct Pair {
    /// The read endpoint.
    pub read: Handle,
    /// The write endpoint.
    pub write: Handle,
}

/// A handle ready to be attached to exactly one child process's standard
/// input, output or error slot.
#[derive(Clone, Copy, PartialEq, Eq, Structural, Debug)]
pub struct StdioHandle {
    /// The underlying handle; ownership of it moved into this value.
    pub handle: Handle,
}

/// The error of a failed operating-system call.  The code is carried
/// unmodified from the call that failed; nothing of this crate's own is
/// mixed into it.
#[derive(Clone, Copy, PartialEq, Eq, Structural, Debug)]
pub struct OsError {
    /// The operating system's error code, unmodified.
    pub code: i32,
}

/// Adapts an owned byte-stream handle — typically one endpoint of a
/// previously created pipe pair — into a stdio handle for one child spawn.
/// A pure ownership transfer: the handle is consumed, not duplicated, so
/// the underlying resource is still released exactly once.
pub fn stdio_from_file(handle: Handle) -> (r: StdioHandle)
    ensures
        r.handle == handle,
{
    StdioHandle { handle }
}

} // verus!
