//! The duplicate-then-close acquisition, for a platform whose native pipe
//! primitive yields inheritable endpoints.
//!
//! One acquisition is a conversation: create the pipe (both endpoints
//! inheritable), duplicate the read endpoint non-inheritably, close the
//! inheritable original, do the same for the write endpoint, and hand the
//! two duplicates to the caller.  If a step fails, every handle opened so
//! far is closed before the error is reported.  The conversation is a state
//! machine: [`PipeTask::step`] consumes the operating system's answer to
//! the last request and says what to do next; an unverified driver performs
//! the requests.  The driver that created the task sees the intermediate
//! inheritable endpoints exist for a moment — the platform imposes that
//! window, and this logic only keeps it as short as the call sequence
//! allows.

use vstd::multiset::Multiset;
use vstd::prelude::*;

use crate::handles::{Handle, OsError, Pair};

verus! {

/// A request the task asks its driver to carry out.
#[derive(Clone, Copy, PartialEq, Eq, Structural, Debug)]
pub enum SysAction {
    /// Create an anonymous pipe; on this platform both endpoints come back
    /// inheritable.
    CreatePipe,
    /// Make a non-inheritable duplicate of the open descriptor `id`.
    Duplicate { id: u64 },
    /// Close the open descriptor `id`.  A failure to close is ignored by
    /// the driver — the descriptor is spent either way, and a close
    /// failure never replaces an error already being reported.
    Close { id: u64 },
    /// The acquisition succeeded: the caller now owns the two endpoints,
    /// and the task holds nothing further.
    Finish { pair: Pair },
    /// The acquisition failed: the error is reported, and no descriptor
    /// the task opened remains open.
    Fail { error: OsError },
}

/// The operating system's answer to the request last made.
#[derive(Clone, Copy, PartialEq, Eq, Structural, Debug)]
pub enum SysEvent {
    /// Answer to `CreatePipe`: the two connected endpoints, distinct and
    /// both inheritable.
    Created { read: u64, write: u64 },
    /// Answer to `Duplicate`: the fresh descriptor, non-inheritable; the
    /// number differs from every descriptor currently open.
    Duplicated { id: u64 },
    /// Answer to `Close`: the descriptor is gone.
    Closed,
    /// The request failed with this operating-system error code.
    Refused { code: i32 },
}

/// The state of one duplicate-then-close acquisition, between a request
/// and its answer.  Each non-terminal state records exactly the
/// descriptors the task has opened and not yet closed or handed out.
#[derive(Clone, Copy, PartialEq, Eq, Structural, Debug)]
pub enum PipeTask {
    /// `CreatePipe` was requested; nothing is open yet.
    CreateSent,
    /// The pipe exists as the inheritable pair `read0`/`write0`; a
    /// non-inheritable duplicate of `read0` was requested.
    DupReadSent { read0: u64, write0: u64 },
    /// `read1` is the non-inheritable duplicate of `read0`; closing the
    /// original `read0` was requested.
    CloseReadSent { read0: u64, write0: u64, read1: u64 },
    /// The read side is done; a non-inheritable duplicate of `write0` was
    /// requested.
    DupWriteSent { write0: u64, read1: u64 },
    /// `write1` is the non-inheritable duplicate of `write0`; closing the
    /// original `write0` was requested.
    CloseWriteSent { write0: u64, read1: u64, write1: u64 },
    /// A step failed with `code` while two descriptors were open; closing
    /// `closing` was requested, and `pending` is closed after it.
    CleanupTwoSent { closing: u64, pending: u64, code: i32 },
    /// A step failed with `code`; closing `closing`, the last open
    /// descriptor, was requested.
    CleanupOneSent { closing: u64, code: i32 },
    /// The acquisition succeeded and the pair was handed out.
    Done,
    /// The acquisition failed and every descriptor it opened was closed.
    Failed,
}

/// Whether the operating system can answer the request recorded in `task`
/// with `event`: the kind must fit the request, a created pair is two
/// distinct descriptors, and a duplicate's number is fresh — it differs
/// from every descriptor the task still has open.  (A number closed
/// earlier may well come back: descriptor numbers are reused.)
pub open spec fn accepts(task: PipeTask, event: SysEvent) -> bool {
    match (task, event) {
        (PipeTask::CreateSent, SysEvent::Created { read, write }) => read != write,
        (PipeTask::CreateSent, SysEvent::Refused { .. }) => true,
        (PipeTask::DupReadSent { read0, write0 }, SysEvent::Duplicated { id }) => id != read0
            && id != write0,
        (PipeTask::DupReadSent { .. }, SysEvent::Refused { .. }) => true,
        (PipeTask::CloseReadSent { .. }, SysEvent::Closed) => true,
        (PipeTask::DupWriteSent { write0, read1 }, SysEvent::Duplicated { id }) => id != write0
            && id != read1,
        (PipeTask::DupWriteSent { .. }, SysEvent::Refused { .. }) => true,
        (PipeTask::CloseWriteSent { .. }, SysEvent::Closed) => true,
        (PipeTask::CleanupTwoSent { .. }, SysEvent::Closed) => true,
        (PipeTask::CleanupOneSent { .. }, SysEvent::Closed) => true,
        _ => false,
    }
}

/// The transition of the acquisition: from the state and the answer to the
/// next state and the next request.  Total for the sake of the executable
/// mirror; on a combination [`accepts`] refuses, it reports failure with a
/// zero code, a turn an accepted run never takes.
pub open spec fn step_spec(task: PipeTask, event: SysEvent) -> (PipeTask, SysAction) {
    match (task, event) {
        (PipeTask::CreateSent, SysEvent::Created { read, write }) => (
            PipeTask::DupReadSent { read0: read, write0: write },
            SysAction::Duplicate { id: read },
        ),
        (PipeTask::CreateSent, SysEvent::Refused { code }) => (
            PipeTask::Failed,
            SysAction::Fail { error: OsError { code } },
        ),
        (PipeTask::DupReadSent { read0, write0 }, SysEvent::Duplicated { id }) => (
            PipeTask::CloseReadSent { read0, write0, read1: id },
            SysAction::Close { id: read0 },
        ),
        (PipeTask::DupReadSent { read0, write0 }, SysEvent::Refused { code }) => (
            PipeTask::CleanupTwoSent { closing: read0, pending: write0, code },
            SysAction::Close { id: read0 },
        ),
        (PipeTask::CloseReadSent { read0, write0, read1 }, SysEvent::Closed) => (
            PipeTask::DupWriteSent { write0, read1 },
            SysAction::Duplicate { id: write0 },
        ),
        (PipeTask::DupWriteSent { write0, read1 }, SysEvent::Duplicated { id }) => (
            PipeTask::CloseWriteSent { write0, read1, write1: id },
            SysAction::Close { id: write0 },
        ),
        (PipeTask::DupWriteSent { write0, read1 }, SysEvent::Refused { code }) => (
            PipeTask::CleanupTwoSent { closing: write0, pending: read1, code },
            SysAction::Close { id: write0 },
        ),
        (PipeTask::CloseWriteSent { write0, read1, write1 }, SysEvent::Closed) => (
            PipeTask::Done,
            SysAction::Finish {
                pair: Pair {
                    read: Handle { id: read1, inheritable: false },
                    write: Handle { id: write1, inheritable: false },
                },
            },
        ),
        (PipeTask::CleanupTwoSent { closing, pending, code }, SysEvent::Closed) => (
            PipeTask::CleanupOneSent { closing: pending, code },
            SysAction::Close { id: pending },
        ),
        (PipeTask::CleanupOneSent { closing, code }, SysEvent::Closed) => (
            PipeTask::Failed,
            SysAction::Fail { error: OsError { code } },
        ),
        _ => (PipeTask::Failed, SysAction::Fail { error: OsError { code: 0 } }),
    }
}

/// The descriptors `task` has opened and not yet closed or handed out,
/// with multiplicity: how many table entries the acquisition holds now.
pub open spec fn open_ms(task: PipeTask) -> Multiset<u64> {
    match task {
        PipeTask::CreateSent => Multiset::empty(),
        PipeTask::DupReadSent { read0, write0 } => Multiset::empty().insert(read0).insert(write0),
        PipeTask::CloseReadSent { read0, write0, read1 } => Multiset::empty().insert(read0).insert(
            write0,
        ).insert(read1),
        PipeTask::DupWriteSent { write0, read1 } => Multiset::empty().insert(write0).insert(read1),
        PipeTask::CloseWriteSent { write0, read1, write1 } => Multiset::empty().insert(
            write0,
        ).insert(read1).insert(write1),
        PipeTask::CleanupTwoSent { closing, pending, .. } => Multiset::empty().insert(
            closing,
        ).insert(pending),
        PipeTask::CleanupOneSent { closing, .. } => Multiset::empty().insert(closing),
        PipeTask::Done => Multiset::empty(),
        PipeTask::Failed => Multiset::empty(),
    }
}

/// Whether the descriptors `task` holds open are pairwise distinct, as
/// entries of one handle table are.
pub open spec fn distinct_ids(task: PipeTask) -> bool {
    match task {
        PipeTask::DupReadSent { read0, write0 } => read0 != write0,
        PipeTask::CloseReadSent { read0, write0, read1 } => read0 != write0 && read0 != read1
            && write0 != read1,
        PipeTask::DupWriteSent { write0, read1 } => write0 != read1,
        PipeTask::CloseWriteSent { write0, read1, write1 } => write0 != read1 && write0 != write1
            && read1 != write1,
        PipeTask::CleanupTwoSent { closing, pending, .. } => closing != pending,
        _ => true,
    }
}

impl PipeTask {
    /// Begins one duplicate-then-close acquisition: the first request is
    /// to create the pipe, and nothing is open yet.
    pub fn start() -> (r: (PipeTask, SysAction))
        ensures
            r.0 == PipeTask::CreateSent,
            r.1 == SysAction::CreatePipe,
    {
        (PipeTask::CreateSent, SysAction::CreatePipe)
    }

    /// Whether the operating system can have answered the task's pending
    /// request with `event`; the driver checks this before stepping.
    pub fn accepts_event(&self, event: &SysEvent) -> (r: bool)
        ensures
            r == accepts(*self, *event),
    {
        match (*self, *event) {
            (PipeTask::CreateSent, SysEvent::Created { read, write }) => read != write,
            (PipeTask::CreateSent, SysEvent::Refused { .. }) => true,
            (PipeTask::DupReadSent { read0, write0 }, SysEvent::Duplicated { id }) => id != read0
                && id != write0,
            (PipeTask::DupReadSent { .. }, SysEvent::Refused { .. }) => true,
            (PipeTask::CloseReadSent { .. }, SysEvent::Closed) => true,
            (PipeTask::DupWriteSent { write0, read1 }, SysEvent::Duplicated { id }) => id != write0
                && id != read1,
            (PipeTask::DupWriteSent { .. }, SysEvent::Refused { .. }) => true,
            (PipeTask::CloseWriteSent { .. }, SysEvent::Closed) => true,
            (PipeTask::CleanupTwoSent { .. }, SysEvent::Closed) => true,
            (PipeTask::CleanupOneSent { .. }, SysEvent::Closed) => true,
            _ => false,
        }
    }

    /// Consumes the operating system's answer to the pending request and
    /// returns the next state with the next request — exactly the
    /// transition [`step_spec`] describes.
    pub fn step(self, event: SysEvent) -> (r: (PipeTask, SysAction))
        ensures
            r == step_spec(self, event),
    {
        match (self, event) {
            (PipeTask::CreateSent, SysEvent::Created { read, write }) => (
                PipeTask::DupReadSent { read0: read, write0: write },
                SysAction::Duplicate { id: read },
            ),
            (PipeTask::CreateSent, SysEvent::Refused { code }) => (
                PipeTask::Failed,
                SysAction::Fail { error: OsError { code } },
            ),
            (PipeTask::DupReadSent { read0, write0 }, SysEvent::Duplicated { id }) => (
                PipeTask::CloseReadSent { read0, write0, read1: id },
                SysAction::Close { id: read0 },
            ),
            (PipeTask::DupReadSent { read0, write0 }, SysEvent::Refused { code }) => (
                PipeTask::CleanupTwoSent { closing: read0, pending: write0, code },
                SysAction::Close { id: read0 },
            ),
            (PipeTask::CloseReadSent { read0, write0, read1 }, SysEvent::Closed) => (
                PipeTask::DupWriteSent { write0, read1 },
                SysAction::Duplicate { id: write0 },
            ),
            (PipeTask::DupWriteSent { write0, read1 }, SysEvent::Duplicated { id }) => (
                PipeTask::CloseWriteSent { write0, read1, write1: id },
                SysAction::Close { id: write0 },
            ),
            (PipeTask::DupWriteSent { write0, read1 }, SysEvent::Refused { code }) => (
                PipeTask::CleanupTwoSent { closing: write0, pending: read1, code },
                SysAction::Close { id: write0 },
            ),
            (PipeTask::CloseWriteSent { write0, read1, write1 }, SysEvent::Closed) => (
                PipeTask::Done,
                SysAction::Finish {
                    pair: Pair {
                        read: Handle { id: read1, inheritable: false },
                        write: Handle { id: write1, inheritable: false },
                    },
                },
            ),
            (PipeTask::CleanupTwoSent { closing: _, pending, code }, SysEvent::Closed) => (
                PipeTask::CleanupOneSent { closing: pending, code },
                SysAction::Close { id: pending },
            ),
            (PipeTask::CleanupOneSent { closing: _, code }, SysEvent::Closed) => (
                PipeTask::Failed,
                SysAction::Fail { error: OsError { code } },
            ),
            _ => (PipeTask::Failed, SysAction::Fail { error: OsError { code: 0 } }),
        }
    }
}

} // verus!
