//! Single-call acquisitions: the atomic pipe-creation strategy, and the
//! wrapping of one of the parent's standard streams.
//!
//! On a platform whose native primitive creates a pipe and marks both
//! endpoints non-inheritable in one call, and likewise duplicates a stream
//! handle non-inheritably in one call, an acquisition is a single request
//! and a single answer: there is no partial state to clean up.  The
//! functions here turn such an answer into the crate's result, exactly.

use vstd::prelude::*;

use crate::handles::{Handle, OsError, Pair, StdioHandle};

verus! {

/// What the one atomic pipe-creation call came back with.
#[derive(Clone, Copy, PartialEq, Eq, Structural, Debug)]
pub enum PipeOutcome {
    /// The call succeeded: a connected pair of endpoints, both already
    /// non-inheritable; no other handle was opened.
    Made { read: u64, write: u64 },
    /// The call failed with this code; no handle was opened.
    Refused { code: i32 },
}

/// What a call that duplicates an existing stream handle non-inheritably
/// came back with.
#[derive(Clone, Copy, PartialEq, Eq, Structural, Debug)]
pub enum DupOutcome {
    /// The call succeeded: a fresh, non-inheritable duplicate; the
    /// original stream handle is untouched.
    Duplicated { id: u64 },
    /// The call failed with this code; no handle was opened.
    Refused { code: i32 },
}

/// Turns the answer of the atomic pipe-creation primitive into the pipe
/// pair or the error.  On success both endpoints are non-inheritable; on
/// failure the error code is carried unmodified and nothing is left open
/// (the one call either made both endpoints or made nothing).
pub fn pipe_outcome(outcome: PipeOutcome) -> (r: Result<Pair, OsError>)
    ensures
        outcome matches PipeOutcome::Made { read, write } ==> r == Ok::<Pair, OsError>(
            Pair {
                read: Handle { id: read, inheritable: false },
                write: Handle { id: write, inheritable: false },
            },
        ),
        outcome matches PipeOutcome::Refused { code } ==> r == Err::<Pair, OsError>(
            OsError { code },
        ),
{
    match outcome {
        PipeOutcome::Made { read, write } => Ok(Pair {
            read: Handle { id: read, inheritable: false },
            write: Handle { id: write, inheritable: false },
        }),
        PipeOutcome::Refused { code } => Err(OsError { code }),
    }
}

/// Turns the answer of the stream-duplication call into the stdio handle
/// or the error.  The duplicate — not the original stream handle, whose
/// inheritability is left alone for the rest of the process's life — is
/// what the caller gets, and it is non-inheritable; on failure the error
/// code is carried unmodified and nothing is left open.
pub fn wrap_stream_outcome(outcome: DupOutcome) -> (r: Result<StdioHandle, OsError>)
    ensures
        outcome matches DupOutcome::Duplicated { id } ==> r == Ok::<StdioHandle, OsError>(
            StdioHandle { handle: Handle { id, inheritable: false } },
        ),
        outcome matches DupOutcome::Refused { code } ==> r == Err::<StdioHandle, OsError>(
            OsError { code },
        ),
{
    match outcome {
        DupOutcome::Duplicated { id } => Ok(StdioHandle {
            handle: Handle { id, inheritable: false },
        }),
        DupOutcome::Refused { code } => Err(OsError { code }),
    }
}

} // verus!
