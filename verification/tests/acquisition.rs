use os_pipe::acquire::{PipeTask, SysAction, SysEvent};
use os_pipe::handles::{Handle, OsError, Pair};

#[test]
fn successful_acquisition_follows_duplicate_then_close() {
    let (task, action) = PipeTask::start();
    assert_eq!(action, SysAction::CreatePipe);

    let event = SysEvent::Created { read: 3, write: 4 };
    assert!(task.accepts_event(&event));
    let (task, action) = task.step(event);
    assert_eq!(action, SysAction::Duplicate { id: 3 });

    let event = SysEvent::Duplicated { id: 5 };
    assert!(task.accepts_event(&event));
    let (task, action) = task.step(event);
    assert_eq!(action, SysAction::Close { id: 3 });

    let event = SysEvent::Closed;
    assert!(task.accepts_event(&event));
    let (task, action) = task.step(event);
    assert_eq!(action, SysAction::Duplicate { id: 4 });

    let event = SysEvent::Duplicated { id: 6 };
    assert!(task.accepts_event(&event));
    let (task, action) = task.step(event);
    assert_eq!(action, SysAction::Close { id: 4 });

    let event = SysEvent::Closed;
    assert!(task.accepts_event(&event));
    let (task, action) = task.step(event);
    assert_eq!(task, PipeTask::Done);
    assert_eq!(
        action,
        SysAction::Finish {
            pair: Pair {
                read: Handle { id: 5, inheritable: false },
                write: Handle { id: 6, inheritable: false },
            },
        }
    );
}

#[test]
fn closed_descriptor_numbers_may_be_reused() {
    // After the inheritable read original (3) is closed, the operating
    // system may hand its number out again as the write duplicate.
    let (task, _) = PipeTask::start();
    let (task, _) = task.step(SysEvent::Created { read: 3, write: 4 });
    let (task, _) = task.step(SysEvent::Duplicated { id: 5 });
    let (task, action) = task.step(SysEvent::Closed);
    assert_eq!(action, SysAction::Duplicate { id: 4 });
    let event = SysEvent::Duplicated { id: 3 };
    assert!(task.accepts_event(&event));
    let (task, _) = task.step(event);
    let (task, action) = task.step(SysEvent::Closed);
    assert_eq!(task, PipeTask::Done);
    assert_eq!(
        action,
        SysAction::Finish {
            pair: Pair {
                read: Handle { id: 5, inheritable: false },
                write: Handle { id: 3, inheritable: false },
            },
        }
    );
}

#[test]
fn create_failure_reports_immediately() {
    // Nothing was opened, so nothing is closed before the error.
    let (task, _) = PipeTask::start();
    let event = SysEvent::Refused { code: 24 };
    assert!(task.accepts_event(&event));
    let (task, action) = task.step(event);
    assert_eq!(task, PipeTask::Failed);
    assert_eq!(action, SysAction::Fail { error: OsError { code: 24 } });
}

#[test]
fn read_duplication_failure_closes_both_originals() {
    let (task, _) = PipeTask::start();
    let (task, _) = task.step(SysEvent::Created { read: 3, write: 4 });
    let (task, action) = task.step(SysEvent::Refused { code: 24 });
    assert_eq!(action, SysAction::Close { id: 3 });
    let (task, action) = task.step(SysEvent::Closed);
    assert_eq!(action, SysAction::Close { id: 4 });
    let (task, action) = task.step(SysEvent::Closed);
    assert_eq!(task, PipeTask::Failed);
    assert_eq!(action, SysAction::Fail { error: OsError { code: 24 } });
}

#[test]
fn write_duplication_failure_closes_original_and_read_duplicate() {
    let (task, _) = PipeTask::start();
    let (task, _) = task.step(SysEvent::Created { read: 3, write: 4 });
    let (task, _) = task.step(SysEvent::Duplicated { id: 5 });
    let (task, _) = task.step(SysEvent::Closed);
    // Open now: the write original 4 and the read duplicate 5.
    let (task, action) = task.step(SysEvent::Refused { code: 9 });
    assert_eq!(action, SysAction::Close { id: 4 });
    let (task, action) = task.step(SysEvent::Closed);
    assert_eq!(action, SysAction::Close { id: 5 });
    let (task, action) = task.step(SysEvent::Closed);
    assert_eq!(task, PipeTask::Failed);
    assert_eq!(action, SysAction::Fail { error: OsError { code: 9 } });
}

#[test]
fn tasks_only_accept_fitting_answers() {
    let (task, _) = PipeTask::start();
    // A pipe whose two endpoints were the same descriptor is no answer.
    assert!(!task.accepts_event(&SysEvent::Created { read: 3, write: 3 }));
    assert!(!task.accepts_event(&SysEvent::Closed));
    assert!(!task.accepts_event(&SysEvent::Duplicated { id: 5 }));

    let (task, _) = task.step(SysEvent::Created { read: 3, write: 4 });
    // A duplicate cannot carry a number that is still open.
    assert!(!task.accepts_event(&SysEvent::Duplicated { id: 3 }));
    assert!(!task.accepts_event(&SysEvent::Duplicated { id: 4 }));
    assert!(task.accepts_event(&SysEvent::Duplicated { id: 5 }));

    // A settled task answers to nothing.
    let (task, _) = task.step(SysEvent::Refused { code: 1 });
    let (task, _) = task.step(SysEvent::Closed);
    let (task, _) = task.step(SysEvent::Closed);
    assert_eq!(task, PipeTask::Failed);
    assert!(!task.accepts_event(&SysEvent::Closed));
    assert!(!task.accepts_event(&SysEvent::Refused { code: 1 }));
}
