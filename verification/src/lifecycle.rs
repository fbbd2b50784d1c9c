//! What holds of a completion window over whole sequences of events.
//!
//! The contracts of the window's methods speak of one event. The statements
//! here follow a window through any number of them: how many tasks it asked
//! for, how many of them have ended, and what became of the buffer.

use vstd::prelude::*;
use crate::complete_window::{ActionView, EventView, OutcomeView, WindowState};
use crate::session::{committed, SessionView};

verus! {

/// The window after the events of `trace`, taken in order.
pub open spec fn run(start: WindowState, trace: Seq<EventView>) -> WindowState
    decreases trace.len(),
{
    if trace.len() == 0 {
        start
    } else {
        run(start, trace.drop_last()).next(trace.last())
    }
}

/// One if a task is outstanding, zero if not.
pub open spec fn outstanding(s: WindowState) -> nat {
    if s.task {
        1
    } else {
        0
    }
}

/// How many times along `trace` the window asked its caller to start a task.
pub open spec fn spawned(start: WindowState, trace: Seq<EventView>) -> nat
    decreases trace.len(),
{
    if trace.len() == 0 {
        0
    } else {
        let before = run(start, trace.drop_last());
        let now: nat = if before.response(trace.last()) is Spawn {
            1
        } else {
            0
        };
        spawned(start, trace.drop_last()) + now
    }
}

/// Whether `event` ends a task of the window `before`: the window asks for
/// the task to be cancelled, or it consumes the task's result.
pub open spec fn retires(before: WindowState, event: EventView) -> bool {
    before.response(event) is Cancel || (event is Finished && before.task)
}

/// How many times along `trace` a task of the window ended.
pub open spec fn retired(start: WindowState, trace: Seq<EventView>) -> nat
    decreases trace.len(),
{
    if trace.len() == 0 {
        0
    } else {
        let now: nat = if retires(run(start, trace.drop_last()), trace.last()) {
            1
        } else {
            0
        };
        retired(start, trace.drop_last()) + now
    }
}

/// No event of `trace` ends a task: none is an abort or a fetched result.
pub open spec fn within_one_task(trace: Seq<EventView>) -> bool {
    forall|i: int| 0 <= i < trace.len() ==> !(#[trigger] trace[i] is Abort) && !(trace[i] is Finished)
}

/// No frame of `trace` finds pending text published.
pub open spec fn nothing_published(trace: Seq<EventView>) -> bool {
    forall|i: int|
        0 <= i < trace.len() ==> (#[trigger] trace[i] matches EventView::Frame { pending, .. }
            ==> pending.is_none())
}

/// At every instant a window has at most one task outstanding: after any
/// sequence of events, the tasks it asked for and that have not ended are
/// none or one, and there is one exactly when the window says so.
pub proof fn law_at_most_one_task(start: WindowState, trace: Seq<EventView>)
    ensures
        outstanding(start) + spawned(start, trace) == retired(start, trace) + outstanding(
            run(start, trace),
        ),
        outstanding(start) + spawned(start, trace) - retired(start, trace) <= 1,
    decreases trace.len(),
{
    if trace.len() > 0 {
        law_at_most_one_task(start, trace.drop_last());
    }
}

/// While a task is outstanding, or published text is mirrored, a request
/// for new work is refused: the window stays as it is and asks for nothing.
pub proof fn law_start_refused_while_pending(s: WindowState)
    requires
        !s.ready(),
    ensures
        s.next(EventView::Generate) == s,
        s.next(EventView::Insert) == s,
        s.response(EventView::Generate) is Nothing,
        s.response(EventView::Insert) is Nothing,
{
}

/// A window starts work only when it is idle, and then has a task.
pub proof fn law_start_only_when_ready(s: WindowState, event: EventView)
    requires
        s.response(event) is Spawn,
    ensures
        s.ready(),
        event is Generate || event is Insert,
        s.next(event).task,
        s.next(event) == (WindowState { task: true, ..s }),
{
}

/// A result is consumed once: after a task ends with `text`, the buffer is
/// `text`, no task is outstanding, and any further result, whatever it
/// holds, changes nothing.
pub proof fn law_result_consumed_once(s: WindowState, text: Seq<char>, again: OutcomeView)
    requires
        s.task,
    ensures
        ({
            let done = s.next(EventView::Finished(OutcomeView::Completed(text)));
            &&& done.text == text
            &&& !done.task
            &&& done == (WindowState { text, task: false, ..s })
            &&& done.next(EventView::Finished(again)) == done
        }),
{
}

/// After an abort the window keeps its buffer, has no task, and consumes no
/// result any more; the session, once reconciled, has as its prompt the
/// text that was published last, or its old prompt if none was.
pub proof fn law_abort_commits_published(s: WindowState, session: SessionView, late: OutcomeView)
    requires
        s.task,
    ensures
        s.response(EventView::Abort) is Cancel,
        ({
            let idle = s.next(EventView::Abort);
            &&& !idle.task
            &&& idle.text == s.text
            &&& idle.next(EventView::Finished(late)) == idle
            &&& idle.response(EventView::Finished(late)) is Nothing
        }),
        committed(session).pending.is_none(),
        committed(session).prompt == match session.pending {
            Some(partial) => partial,
            None => session.prompt,
        },
{
}

/// A failed task leaves the buffer as it was when the failure was consumed.
pub proof fn law_failure_keeps_buffer(s: WindowState)
    ensures
        s.next(EventView::Finished(OutcomeView::Failed)).text == s.text,
        s.next(EventView::Finished(OutcomeView::Failed)) == (WindowState { task: false, ..s }),
{
}

/// While one task runs and nothing is published, the window keeps its task
/// and its buffer.
pub proof fn lemma_quiet_task_keeps_buffer(s: WindowState, during: Seq<EventView>)
    requires
        s.task,
        within_one_task(during),
        nothing_published(during),
    ensures
        run(s, during).task,
        run(s, during).text == s.text,
    decreases during.len(),
{
    if during.len() > 0 {
        let earlier = during.drop_last();
        assert forall|i: int| 0 <= i < earlier.len() implies !(#[trigger] earlier[i] is Abort)
            && !(earlier[i] is Finished) by {
            assert(earlier[i] == during[i]);
        }
        assert forall|i: int| 0 <= i < earlier.len() implies (#[trigger] earlier[i] matches EventView::Frame {
            pending,
            ..
        } ==> pending.is_none()) by {
            assert(earlier[i] == during[i]);
        }
        lemma_quiet_task_keeps_buffer(s, earlier);
        let last = during[during.len() - 1];
        assert(!(last is Abort) && !(last is Finished));
        assert(last matches EventView::Frame { pending, .. } ==> pending.is_none());
    }
}

/// A task that fails without any text having been published while it ran
/// leaves the buffer as it was before the task was started.
pub proof fn law_failure_restores_buffer(s: WindowState, insert: bool, during: Seq<EventView>)
    requires
        s.started(insert).is_some(),
        within_one_task(during),
        nothing_published(during),
    ensures
        run(s.after_start(insert), during).task,
        run(s.after_start(insert), during).next(EventView::Finished(OutcomeView::Failed)).text
            == s.text,
{
    lemma_quiet_task_keeps_buffer(s.after_start(insert), during);
}

} // verus!
