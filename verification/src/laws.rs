//! What holds of a whole acquisition run.
//!
//! A run is the sequence of operating-system answers one acquisition
//! consumed, starting from [`PipeTask::start`].  The functions here fold
//! the transition over such a sequence and account for every descriptor
//! the run acquired, released, or handed to the caller; the lemmas state
//! the laws of the acquisition — chiefly that a failed run closed every
//! descriptor it opened, and that a successful run is exactly the
//! duplicate-then-close sequence and hands out two fresh, distinct,
//! non-inheritable endpoints.

use vstd::multiset::Multiset;
use vstd::prelude::*;

use crate::acquire::{accepts, distinct_ids, open_ms, step_spec, PipeTask, SysAction, SysEvent};
use crate::handles::{Handle, Pair};

verus! {

broadcast use vstd::multiset::group_multiset_axioms;

/// The state reached by feeding `events`, in order, to a task in state
/// `task`.
pub open spec fn run_from(task: PipeTask, events: Seq<SysEvent>) -> PipeTask
    decreases events.len(),
{
    if events.len() == 0 {
        task
    } else {
        run_from(step_spec(task, events[0]).0, events.skip(1))
    }
}

/// Whether every answer in `events` is one the operating system can give
/// at the point it is consumed (see [`accepts`]).
pub open spec fn run_ok_from(task: PipeTask, events: Seq<SysEvent>) -> bool
    decreases events.len(),
{
    events.len() == 0 || (accepts(task, events[0]) && run_ok_from(
        step_spec(task, events[0]).0,
        events.skip(1),
    ))
}

/// The descriptors the operating system opened at one step: a created
/// pair, or a duplicate.
pub open spec fn acquired_at(task: PipeTask, event: SysEvent) -> Multiset<u64> {
    match (task, event) {
        (PipeTask::CreateSent, SysEvent::Created { read, write }) => Multiset::empty().insert(
            read,
        ).insert(write),
        (PipeTask::DupReadSent { .. }, SysEvent::Duplicated { id }) => Multiset::empty().insert(id),
        (PipeTask::DupWriteSent { .. }, SysEvent::Duplicated { id }) => Multiset::empty().insert(
            id,
        ),
        _ => Multiset::empty(),
    }
}

/// The descriptor the operating system closed at one step: the one named
/// by the close request this state was awaiting.
pub open spec fn released_at(task: PipeTask, event: SysEvent) -> Multiset<u64> {
    match (task, event) {
        (PipeTask::CloseReadSent { read0, .. }, SysEvent::Closed) => Multiset::empty().insert(
            read0,
        ),
        (PipeTask::CloseWriteSent { write0, .. }, SysEvent::Closed) => Multiset::empty().insert(
            write0,
        ),
        (PipeTask::CleanupTwoSent { closing, .. }, SysEvent::Closed) => Multiset::empty().insert(
            closing,
        ),
        (PipeTask::CleanupOneSent { closing, .. }, SysEvent::Closed) => Multiset::empty().insert(
            closing,
        ),
        _ => Multiset::empty(),
    }
}

/// The descriptors whose ownership moved to the caller at one step: the
/// two endpoints of the pair, at the step that finishes the acquisition.
pub open spec fn handed_at(task: PipeTask, event: SysEvent) -> Multiset<u64> {
    match (task, event) {
        (PipeTask::CloseWriteSent { read1, write1, .. }, SysEvent::Closed) => Multiset::empty()
            .insert(read1).insert(write1),
        _ => Multiset::empty(),
    }
}

/// Every descriptor the operating system opened over the run.
pub open spec fn acquired_from(task: PipeTask, events: Seq<SysEvent>) -> Multiset<u64>
    decreases events.len(),
{
    if events.len() == 0 {
        Multiset::empty()
    } else {
        acquired_at(task, events[0]).add(
            acquired_from(step_spec(task, events[0]).0, events.skip(1)),
        )
    }
}

/// Every descriptor the operating system closed over the run.
pub open spec fn released_from(task: PipeTask, events: Seq<SysEvent>) -> Multiset<u64>
    decreases events.len(),
{
    if events.len() == 0 {
        Multiset::empty()
    } else {
        released_at(task, events[0]).add(
            released_from(step_spec(task, events[0]).0, events.skip(1)),
        )
    }
}

/// Every descriptor whose ownership moved to the caller over the run.
pub open spec fn handed_from(task: PipeTask, events: Seq<SysEvent>) -> Multiset<u64>
    decreases events.len(),
{
    if events.len() == 0 {
        Multiset::empty()
    } else {
        handed_at(task, events[0]).add(handed_from(step_spec(task, events[0]).0, events.skip(1)))
    }
}

/// The request the task makes when it consumes `events[i]`, on the run of
/// `events` from the freshly started task.
pub open spec fn act_at(events: Seq<SysEvent>, i: int) -> SysAction {
    step_spec(run_from(PipeTask::CreateSent, events.take(i)), events[i]).1
}

/// One step balances the books: what was open before, plus what the
/// operating system opened at the step, is what is open after, plus what
/// was handed to the caller, plus what was closed.
pub proof fn lemma_step_accounting(task: PipeTask, event: SysEvent)
    requires
        accepts(task, event),
    ensures
        open_ms(task).add(acquired_at(task, event)) =~= open_ms(step_spec(task, event).0).add(
            handed_at(task, event),
        ).add(released_at(task, event)),
{
}

/// A step never makes the task hold the same descriptor twice: the
/// distinctness of its open descriptors is preserved, because an accepted
/// answer only brings numbers fresh to the task.
pub proof fn lemma_step_keeps_distinct(task: PipeTask, event: SysEvent)
    requires
        distinct_ids(task),
        accepts(task, event),
    ensures
        distinct_ids(step_spec(task, event).0),
{
}

/// A settled task consumes nothing further: an accepted run from a `Done`
/// or `Failed` state is empty and stays there.
pub proof fn lemma_settled_run(task: PipeTask, events: Seq<SysEvent>)
    requires
        run_ok_from(task, events),
        task is Done || task is Failed,
    ensures
        events.len() == 0,
        run_from(task, events) == task,
{
}

/// The books balance over a whole run: what was open at the start, plus
/// everything the operating system opened during the run, is what is open
/// at the end, plus everything handed to the caller, plus everything
/// closed.
pub proof fn lemma_run_accounting(task: PipeTask, events: Seq<SysEvent>)
    requires
        run_ok_from(task, events),
    ensures
        open_ms(task).add(acquired_from(task, events)) =~= open_ms(run_from(task, events)).add(
            handed_from(task, events),
        ).add(released_from(task, events)),
    decreases events.len(),
{
    if events.len() == 0 {
    } else {
        let after = step_spec(task, events[0]).0;
        lemma_step_accounting(task, events[0]);
        lemma_run_accounting(after, events.skip(1));
        assert forall|x: u64|
            open_ms(task).add(acquired_from(task, events)).count(x) == open_ms(
                run_from(task, events),
            ).add(handed_from(task, events)).add(released_from(task, events)).count(x) by {
            assert(open_ms(task).add(acquired_at(task, events[0])).count(x) == open_ms(after).add(
                handed_at(task, events[0]),
            ).add(released_at(task, events[0])).count(x));
            assert(open_ms(after).add(acquired_from(after, events.skip(1))).count(x) == open_ms(
                run_from(after, events.skip(1)),
            ).add(handed_from(after, events.skip(1))).add(
                released_from(after, events.skip(1)),
            ).count(x));
        }
    }
}

/// A run that ends in failure handed nothing to the caller: ownership of a
/// pair moves only at the step that settles the task as `Done`, and a task
/// settled as `Done` never turns into a failed one.
pub proof fn lemma_failed_run_hands_nothing(task: PipeTask, events: Seq<SysEvent>)
    requires
        run_ok_from(task, events),
        run_from(task, events) is Failed,
    ensures
        handed_from(task, events) =~= Multiset::empty(),
    decreases events.len(),
{
    if events.len() == 0 {
    } else {
        let after = step_spec(task, events[0]).0;
        if after is Done {
            lemma_settled_run(after, events.skip(1));
        }
        lemma_failed_run_hands_nothing(after, events.skip(1));
    }
}

/// The law of failure: an acquisition that reports an error leaves not one
/// descriptor behind.  Every descriptor the operating system opened over
/// the failed run was closed again over the same run.
pub proof fn lemma_failed_acquisition_closes_all(events: Seq<SysEvent>)
    requires
        run_ok_from(PipeTask::CreateSent, events),
        run_from(PipeTask::CreateSent, events) is Failed,
    ensures
        acquired_from(PipeTask::CreateSent, events) =~= released_from(
            PipeTask::CreateSent,
            events,
        ),
{
    lemma_run_accounting(PipeTask::CreateSent, events);
    lemma_failed_run_hands_nothing(PipeTask::CreateSent, events);
    assert forall|x: u64|
        acquired_from(PipeTask::CreateSent, events).count(x) == released_from(
            PipeTask::CreateSent,
            events,
        ).count(x) by {
        assert(open_ms(PipeTask::CreateSent).add(
            acquired_from(PipeTask::CreateSent, events),
        ).count(x) == open_ms(run_from(PipeTask::CreateSent, events)).add(
            handed_from(PipeTask::CreateSent, events),
        ).add(released_from(PipeTask::CreateSent, events)).count(x));
        assert(handed_from(PipeTask::CreateSent, events).count(x) == 0);
        assert(open_ms(run_from(PipeTask::CreateSent, events)).count(x) == 0);
    }
}

/// Along an accepted run the task never holds the same descriptor twice:
/// the endpoints it works with stay pairwise distinct.
pub proof fn lemma_run_keeps_distinct(task: PipeTask, events: Seq<SysEvent>)
    requires
        distinct_ids(task),
        run_ok_from(task, events),
    ensures
        distinct_ids(run_from(task, events)),
    decreases events.len(),
{
    if events.len() == 0 {
    } else {
        lemma_step_keeps_distinct(task, events[0]);
        lemma_run_keeps_distinct(step_spec(task, events[0]).0, events.skip(1));
    }
}

/// Once a step has failed, the run can only close up and report the error:
/// no continuation of a cleanup reaches `Done`.
pub proof fn lemma_cleanup_never_done(task: PipeTask, events: Seq<SysEvent>)
    requires
        run_ok_from(task, events),
        task is CleanupTwoSent || task is CleanupOneSent || task is Failed,
    ensures
        !(run_from(task, events) is Done),
    decreases events.len(),
{
    if events.len() > 0 {
        lemma_cleanup_never_done(step_spec(task, events[0]).0, events.skip(1));
    }
}

/// Taking one more answer of a run advances the reached state by one
/// transition.
pub proof fn lemma_run_take_one_more(task: PipeTask, events: Seq<SysEvent>, i: int)
    requires
        0 <= i < events.len(),
    ensures
        run_from(task, events.take(i + 1)) == step_spec(
            run_from(task, events.take(i)),
            events[i],
        ).0,
    decreases i,
{
    if i == 0 {
        assert(events.take(0) =~= Seq::<SysEvent>::empty());
        assert(run_from(task, events.take(0)) == task);
        assert(events.take(1).skip(1) =~= Seq::<SysEvent>::empty());
        assert(events.take(1)[0] == events[0]);
        assert(run_from(task, events.take(1)) == run_from(
            step_spec(task, events[0]).0,
            events.take(1).skip(1),
        ));
        assert(run_from(step_spec(task, events[0]).0, Seq::<SysEvent>::empty()) == step_spec(
            task,
            events[0],
        ).0);
    } else {
        let after = step_spec(task, events[0]).0;
        assert(events.take(i + 1)[0] == events[0]);
        assert(events.take(i)[0] == events[0]);
        assert(events.take(i + 1).skip(1) =~= events.skip(1).take(i));
        assert(events.take(i).skip(1) =~= events.skip(1).take(i - 1));
        lemma_run_take_one_more(after, events.skip(1), i - 1);
        assert(events.skip(1)[i - 1] == events[i]);
        assert(run_from(task, events.take(i + 1)) == run_from(after, events.skip(1).take(i)));
        assert(run_from(task, events.take(i)) == run_from(after, events.skip(1).take(i - 1)));
    }
}

/// The answers of a run that creates the pipe as `r0`/`w0` and duplicates
/// the endpoints as `r1` and then `w1`, with every close succeeding.
pub open spec fn success_trace(r0: u64, w0: u64, r1: u64, w1: u64) -> Seq<SysEvent> {
    seq![
        SysEvent::Created { read: r0, write: w0 },
        SysEvent::Duplicated { id: r1 },
        SysEvent::Closed,
        SysEvent::Duplicated { id: w1 },
        SysEvent::Closed,
    ]
}

/// The law of success, realizability direction: whenever the operating
/// system answers the creation with two distinct endpoints and each
/// duplication with a number fresh at that point, the duplicate-then-close
/// run is accepted end to end and settles as `Done`.
pub proof fn lemma_duplicate_then_close_succeeds(r0: u64, w0: u64, r1: u64, w1: u64)
    requires
        r0 != w0,
        r1 != r0,
        r1 != w0,
        w1 != w0,
        w1 != r1,
    ensures
        run_ok_from(PipeTask::CreateSent, success_trace(r0, w0, r1, w1)),
        run_from(PipeTask::CreateSent, success_trace(r0, w0, r1, w1)) is Done,
{
    let e0 = success_trace(r0, w0, r1, w1);
    let e1 = e0.skip(1);
    let e2 = e1.skip(1);
    let e3 = e2.skip(1);
    let e4 = e3.skip(1);
    let e5 = e4.skip(1);
    assert(e5.len() == 0);
    let s0 = PipeTask::CreateSent;
    let s1 = step_spec(s0, e0[0]).0;
    let s2 = step_spec(s1, e1[0]).0;
    let s3 = step_spec(s2, e2[0]).0;
    let s4 = step_spec(s3, e3[0]).0;
    let s5 = step_spec(s4, e4[0]).0;
    assert(e1[0] == e0[1] && e2[0] == e0[2] && e3[0] == e0[3] && e4[0] == e0[4]);
    assert(s5 is Done);
    assert(run_from(s4, e4) == run_from(s5, e5));
    assert(run_from(s0, e0) == run_from(s1, e1));
    assert(run_from(s1, e1) == run_from(s2, e2));
    assert(run_from(s2, e2) == run_from(s3, e3));
    assert(run_from(s3, e3) == run_from(s4, e4));
    assert(run_ok_from(s5, e5));
    assert(run_ok_from(s4, e4));
    assert(run_ok_from(s3, e3));
    assert(run_ok_from(s2, e2));
    assert(run_ok_from(s1, e1));
    assert(run_ok_from(s0, e0));
}

/// The law of success: an acquisition that reaches `Done` went through
/// exactly the duplicate-then-close sequence — create the pipe, duplicate
/// the read endpoint and close its inheritable original, duplicate the
/// write endpoint and close its inheritable original — and the pair it
/// hands out is the two duplicates: distinct descriptors, each duplicated
/// from the corresponding endpoint of the one created pipe, and both
/// non-inheritable.
pub proof fn lemma_successful_acquisition(events: Seq<SysEvent>)
    requires
        run_ok_from(PipeTask::CreateSent, events),
        run_from(PipeTask::CreateSent, events) is Done,
    ensures
        events.len() == 5,
        events[0] is Created,
        events[1] is Duplicated,
        events[2] is Closed,
        events[3] is Duplicated,
        events[4] is Closed,
        events[0]->read != events[0]->write,
        events[1]->id != events[3]->id,
        act_at(events, 0) == (SysAction::Duplicate { id: events[0]->read }),
        act_at(events, 1) == (SysAction::Close { id: events[0]->read }),
        act_at(events, 2) == (SysAction::Duplicate { id: events[0]->write }),
        act_at(events, 3) == (SysAction::Close { id: events[0]->write }),
        act_at(events, 4) == (SysAction::Finish {
            pair: Pair {
                read: Handle { id: events[1]->id, inheritable: false },
                write: Handle { id: events[3]->id, inheritable: false },
            },
        }),
{
    let s0 = PipeTask::CreateSent;
    if events.len() == 0 {
        assert(run_from(s0, events) == s0);
    }
    let rest1 = events.skip(1);
    assert(accepts(s0, events[0]));
    let s1 = step_spec(s0, events[0]).0;
    assert(run_from(s0, events) == run_from(s1, rest1));
    assert(run_ok_from(s1, rest1));
    if events[0] is Refused {
        lemma_settled_run(s1, rest1);
    }
    let r0 = events[0]->read;
    let w0 = events[0]->write;
    assert(s1 == (PipeTask::DupReadSent { read0: r0, write0: w0 }));

    if rest1.len() == 0 {
        assert(run_from(s1, rest1) == s1);
    }
    assert(rest1[0] == events[1]);
    assert(accepts(s1, events[1]));
    let s2 = step_spec(s1, events[1]).0;
    let rest2 = rest1.skip(1);
    assert(rest2 =~= events.skip(2));
    assert(run_from(s1, rest1) == run_from(s2, rest2));
    assert(run_ok_from(s2, rest2));
    if events[1] is Refused {
        lemma_cleanup_never_done(s2, rest2);
    }
    let r1 = events[1]->id;
    assert(s2 == (PipeTask::CloseReadSent { read0: r0, write0: w0, read1: r1 }));

    if rest2.len() == 0 {
        assert(run_from(s2, rest2) == s2);
    }
    assert(rest2[0] == events[2]);
    assert(accepts(s2, events[2]));
    assert(events[2] is Closed);
    let s3 = step_spec(s2, events[2]).0;
    let rest3 = rest2.skip(1);
    assert(rest3 =~= events.skip(3));
    assert(run_from(s2, rest2) == run_from(s3, rest3));
    assert(run_ok_from(s3, rest3));
    assert(s3 == (PipeTask::DupWriteSent { write0: w0, read1: r1 }));

    if rest3.len() == 0 {
        assert(run_from(s3, rest3) == s3);
    }
    assert(rest3[0] == events[3]);
    assert(accepts(s3, events[3]));
    let s4 = step_spec(s3, events[3]).0;
    let rest4 = rest3.skip(1);
    assert(rest4 =~= events.skip(4));
    assert(run_from(s3, rest3) == run_from(s4, rest4));
    assert(run_ok_from(s4, rest4));
    if events[3] is Refused {
        lemma_cleanup_never_done(s4, rest4);
    }
    let w1 = events[3]->id;
    assert(s4 == (PipeTask::CloseWriteSent { write0: w0, read1: r1, write1: w1 }));

    if rest4.len() == 0 {
        assert(run_from(s4, rest4) == s4);
    }
    assert(rest4[0] == events[4]);
    assert(accepts(s4, events[4]));
    assert(events[4] is Closed);
    let s5 = step_spec(s4, events[4]).0;
    let rest5 = rest4.skip(1);
    assert(run_from(s4, rest4) == run_from(s5, rest5));
    assert(run_ok_from(s5, rest5));
    assert(s5 is Done);
    lemma_settled_run(s5, rest5);
    assert(events.len() == 5);

    assert(events.take(0) =~= Seq::<SysEvent>::empty());
    assert(run_from(s0, events.take(0)) == s0);
    lemma_run_take_one_more(s0, events, 0);
    assert(run_from(s0, events.take(1)) == s1);
    lemma_run_take_one_more(s0, events, 1);
    assert(run_from(s0, events.take(2)) == s2);
    lemma_run_take_one_more(s0, events, 2);
    assert(run_from(s0, events.take(3)) == s3);
    lemma_run_take_one_more(s0, events, 3);
    assert(run_from(s0, events.take(4)) == s4);
}

/// The books of a successful acquisition: of everything the operating
/// system opened over the run, exactly the two endpoints of the pair were
/// neither closed — every inheritable original was — nor left behind.
pub proof fn lemma_successful_acquisition_balance(events: Seq<SysEvent>)
    requires
        run_ok_from(PipeTask::CreateSent, events),
        run_from(PipeTask::CreateSent, events) is Done,
    ensures
        acquired_from(PipeTask::CreateSent, events) =~= released_from(
            PipeTask::CreateSent,
            events,
        ).insert(events[1]->id).insert(events[3]->id),
{
    lemma_successful_acquisition(events);
    lemma_run_accounting(PipeTask::CreateSent, events);
    let s0 = PipeTask::CreateSent;
    let s1 = step_spec(s0, events[0]).0;
    let s2 = step_spec(s1, events[1]).0;
    let s3 = step_spec(s2, events[2]).0;
    let s4 = step_spec(s3, events[3]).0;
    let s5 = step_spec(s4, events[4]).0;
    let rest1 = events.skip(1);
    let rest2 = rest1.skip(1);
    let rest3 = rest2.skip(1);
    let rest4 = rest3.skip(1);
    let rest5 = rest4.skip(1);
    assert(rest1[0] == events[1] && rest2[0] == events[2] && rest3[0] == events[3] && rest4[0]
        == events[4]);
    assert(rest5.len() == 0);
    assert(handed_from(s5, rest5) == Multiset::<u64>::empty());
    assert(handed_from(s4, rest4) == handed_at(s4, events[4]).add(handed_from(s5, rest5)));
    assert(handed_from(s3, rest3) == handed_at(s3, events[3]).add(handed_from(s4, rest4)));
    assert(handed_from(s2, rest2) == handed_at(s2, events[2]).add(handed_from(s3, rest3)));
    assert(handed_from(s1, rest1) == handed_at(s1, events[1]).add(handed_from(s2, rest2)));
    assert(handed_from(s0, events) == handed_at(s0, events[0]).add(handed_from(s1, rest1)));
    let r1 = events[1]->id;
    let w1 = events[3]->id;
    assert(s4 == (PipeTask::CloseWriteSent {
        write0: events[0]->write,
        read1: r1,
        write1: w1,
    }));
    assert(handed_at(s4, events[4]) == Multiset::<u64>::empty().insert(r1).insert(w1));
    assert(run_from(s0, events) is Done);
    assert forall|x: u64|
        acquired_from(s0, events).count(x) == released_from(s0, events).insert(r1).insert(
            w1,
        ).count(x) by {
        assert(open_ms(s0).add(acquired_from(s0, events)).count(x) == open_ms(
            run_from(s0, events),
        ).add(handed_from(s0, events)).add(released_from(s0, events)).count(x));
        assert(open_ms(run_from(s0, events)).count(x) == 0);
        assert(handed_from(s0, events).count(x) == Multiset::<u64>::empty().insert(r1).insert(
            w1,
        ).count(x));
    }
}

} // verus!
