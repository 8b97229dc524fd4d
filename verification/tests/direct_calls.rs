use os_pipe::direct::{pipe_outcome, wrap_stream_outcome, DupOutcome, PipeOutcome};
use os_pipe::handles::{stdio_from_file, Handle, OsError, Pair, StdioHandle};

#[test]
fn atomic_creation_yields_non_inheritable_pair() {
    let made = pipe_outcome(PipeOutcome::Made { read: 7, write: 8 });
    assert_eq!(
        made,
        Ok(Pair {
            read: Handle { id: 7, inheritable: false },
            write: Handle { id: 8, inheritable: false },
        })
    );
}

#[test]
fn atomic_creation_failure_carries_the_code_unmodified() {
    let refused = pipe_outcome(PipeOutcome::Refused { code: 24 });
    assert_eq!(refused, Err(OsError { code: 24 }));
}

#[test]
fn wrapped_stream_is_a_non_inheritable_duplicate() {
    let wrapped = wrap_stream_outcome(DupOutcome::Duplicated { id: 9 });
    assert_eq!(
        wrapped,
        Ok(StdioHandle { handle: Handle { id: 9, inheritable: false } })
    );
}

#[test]
fn wrapping_failure_carries_the_code_unmodified() {
    let refused = wrap_stream_outcome(DupOutcome::Refused { code: 6 });
    assert_eq!(refused, Err(OsError { code: 6 }));
}

#[test]
fn adapting_a_handle_transfers_it_unchanged() {
    let endpoint = Handle { id: 11, inheritable: false };
    let stdio = stdio_from_file(endpoint);
    assert_eq!(stdio.handle, endpoint);
    let inheritable = Handle { id: 12, inheritable: true };
    assert_eq!(stdio_from_file(inheritable).handle, inheritable);
}
