//! What holds of the events of a task: a task that started ends, once.

use crate::protocol::events::Event;
use vstd::prelude::*;

verus! {

/// The event says that the task of the submission started.
pub open spec fn starts_task(e: Event, sub_id: Seq<char>) -> bool {
    e.id@ == sub_id && e.msg is TaskStarted
}

/// The event says that the task of the submission is over: complete,
/// or aborted.
pub open spec fn ends_task(e: Event, sub_id: Seq<char>) -> bool {
    e.id@ == sub_id && (e.msg is TaskComplete || e.msg is TurnAborted)
}

/// Whether the task of the submission is under way after one more
/// event, given whether it was before; `None` where the event is out
/// of place: the task starts while it is under way, or ends while it
/// is not.
pub open spec fn under_way_then(before: Option<bool>, e: Event, sub_id: Seq<char>) -> Option<bool> {
    match before {
        None => None,
        Some(open) => if starts_task(e, sub_id) {
            if open {
                None
            } else {
                Some(true)
            }
        } else if ends_task(e, sub_id) {
            if open {
                Some(false)
            } else {
                None
            }
        } else {
            Some(open)
        },
    }
}

/// Whether the task of the submission is under way after the events,
/// given whether it was before them; `None` where an event is out of
/// place.
pub open spec fn under_way_after(open: bool, events: Seq<Event>, sub_id: Seq<char>) -> Option<bool>
    decreases events.len(),
{
    if events.len() == 0 {
        Some(open)
    } else {
        under_way_then(under_way_after(open, events.drop_last(), sub_id), events.last(), sub_id)
    }
}

/// After event `i` the task ends, and between the two it neither
/// starts nor ends.
pub open spec fn ends_once(events: Seq<Event>, sub_id: Seq<char>, i: int) -> bool {
    exists|j: int|
        i < j < events.len() && ends_task(#[trigger] events[j], sub_id) && quiet_between(
            events,
            sub_id,
            i,
            j,
        )
}

/// Between events `i` and `j` the task neither starts nor ends.
pub open spec fn quiet_between(events: Seq<Event>, sub_id: Seq<char>, i: int, j: int) -> bool {
    forall|k: int|
        i < k < j && k < events.len() ==> !starts_task(#[trigger] events[k], sub_id) && !ends_task(
            events[k],
            sub_id,
        )
}

/// What is under way after events and one more is what that one makes
/// of what was under way after the others.
pub proof fn lemma_under_way_push(open: bool, events: Seq<Event>, e: Event, sub_id: Seq<char>)
    ensures
        under_way_after(open, events.push(e), sub_id) == under_way_then(
            under_way_after(open, events, sub_id),
            e,
            sub_id,
        ),
{
    assert(events.push(e).drop_last() =~= events);
}

/// What is under way after events in two parts is what is under way
/// after the second part, given what was after the first.
pub proof fn lemma_under_way_concat(open: bool, a: Seq<Event>, b: Seq<Event>, sub_id: Seq<char>)
    ensures
        under_way_after(open, a + b, sub_id) == (match under_way_after(open, a, sub_id) {
            Some(o) => under_way_after(o, b, sub_id),
            None => None,
        }),
    decreases b.len(),
{
    if b.len() == 0 {
        assert(a + b =~= a);
    } else {
        lemma_under_way_concat(open, a, b.drop_last(), sub_id);
        assert((a + b).drop_last() =~= a + b.drop_last());
        assert((a + b).last() == b.last());
    }
}

/// Of events in order that start with no task under way, each start
/// of the task is followed by its one end, or the task is still under
/// way and has not started or ended since.
pub proof fn lemma_task_trace(events: Seq<Event>, sub_id: Seq<char>, i: int)
    requires
        under_way_after(false, events, sub_id) is Some,
        0 <= i < events.len(),
        starts_task(events[i], sub_id),
    ensures
        ends_once(events, sub_id, i) || (under_way_after(false, events, sub_id) == Some(true)
            && quiet_between(events, sub_id, i, events.len() as int)),
    decreases events.len(),
{
    let front = events.drop_last();
    let last = events.last();
    let n = events.len() as int;
    assert(under_way_after(false, front, sub_id) is Some);
    if i == n - 1 {
        assert(quiet_between(events, sub_id, i, n));
    } else {
        assert(front[i] == events[i]);
        lemma_task_trace(front, sub_id, i);
        if ends_once(front, sub_id, i) {
            let j = choose|j: int|
                i < j < front.len() && ends_task(#[trigger] front[j], sub_id) && quiet_between(
                    front,
                    sub_id,
                    i,
                    j,
                );
            assert(events[j] == front[j]);
            assert forall|k: int| i < k < j && k < events.len() implies !starts_task(
                #[trigger] events[k],
                sub_id,
            ) && !ends_task(events[k], sub_id) by {
                assert(events[k] == front[k]);
            }
            assert(quiet_between(events, sub_id, i, j));
        } else {
            assert forall|k: int| i < k < n - 1 implies !starts_task(#[trigger] events[k], sub_id)
                && !ends_task(events[k], sub_id) by {
                assert(events[k] == front[k]);
            }
            if ends_task(last, sub_id) {
                assert(events[n - 1] == last);
                assert(quiet_between(events, sub_id, i, n - 1));
            } else {
                assert forall|k: int| i < k < n && k < events.len() implies !starts_task(
                    #[trigger] events[k],
                    sub_id,
                ) && !ends_task(events[k], sub_id) by {
                    if k == n - 1 {
                        assert(events[k] == last);
                    }
                }
            }
        }
    }
}

/// Of events in order that start and end with no task under way, each
/// start of the task is followed by exactly one end, complete or
/// aborted, before the task starts again.
pub proof fn lemma_started_task_ends_once(events: Seq<Event>, sub_id: Seq<char>, i: int)
    requires
        under_way_after(false, events, sub_id) == Some(false),
        0 <= i < events.len(),
        starts_task(events[i], sub_id),
    ensures
        ends_once(events, sub_id, i),
{
    lemma_task_trace(events, sub_id, i);
}

} // verus!
