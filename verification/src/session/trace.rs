//! What holds of the events that a session emits: what is begun is
//! ended.

use crate::protocol::events::{Event, EventMsg};
use vstd::prelude::*;

verus! {

/// What an event begins, if it begins anything: the run of a command
/// (`false`) or the application of a patch (`true`), under a call id.
pub open spec fn begins(e: Event) -> Option<(bool, Seq<char>)> {
    match e.msg {
        EventMsg::ExecCommandBegin { call_id, .. } => Some((false, call_id@)),
        EventMsg::PatchApplyBegin { call_id, .. } => Some((true, call_id@)),
        _ => None,
    }
}

/// What an event ends, if it ends anything.
pub open spec fn ends(e: Event) -> Option<(bool, Seq<char>)> {
    match e.msg {
        EventMsg::ExecCommandEnd { call_id, .. } => Some((false, call_id@)),
        EventMsg::PatchApplyEnd { call_id, .. } => Some((true, call_id@)),
        _ => None,
    }
}

/// What is open after one more event, given what was open before;
/// `None` where the event is out of place: it begins something while
/// something is open, or ends what is not open.
pub open spec fn open_after_event(open: Option<(bool, Seq<char>)>, e: Event) -> Option<
    Option<(bool, Seq<char>)>,
> {
    if begins(e) is Some {
        if open is None {
            Some(begins(e))
        } else {
            None
        }
    } else if ends(e) is Some {
        if open == ends(e) {
            Some(None)
        } else {
            None
        }
    } else {
        Some(open)
    }
}

/// What is open after the events, given what was open before them;
/// `None` where an event is out of place.
pub open spec fn open_after(open: Option<(bool, Seq<char>)>, events: Seq<Event>) -> Option<
    Option<(bool, Seq<char>)>,
>
    decreases events.len(),
{
    if events.len() == 0 {
        Some(open)
    } else {
        match open_after(open, events.drop_last()) {
            Some(o) => open_after_event(o, events.last()),
            None => None,
        }
    }
}

/// Event `i` begins something that a later event ends.
pub open spec fn is_ended(events: Seq<Event>, i: int) -> bool {
    exists|j: int| i < j < events.len() && ends(#[trigger] events[j]) == begins(events[i])
}

/// What is open after one event more.
pub open spec fn open_then(
    before: Option<Option<(bool, Seq<char>)>>,
    e: Event,
) -> Option<Option<(bool, Seq<char>)>> {
    match before {
        Some(o) => open_after_event(o, e),
        None => None,
    }
}

/// What is open after events and one more is what that one makes of
/// what was open after the others.
pub proof fn lemma_open_after_push(open: Option<(bool, Seq<char>)>, events: Seq<Event>, e: Event)
    ensures
        open_after(open, events.push(e)) == open_then(open_after(open, events), e),
{
    assert(events.push(e).drop_last() =~= events);
}

/// What is open after events in two parts is what is open after the
/// second part, given what is open after the first.
pub proof fn lemma_open_after_concat(
    open: Option<(bool, Seq<char>)>,
    a: Seq<Event>,
    b: Seq<Event>,
)
    ensures
        open_after(open, a + b) == (match open_after(open, a) {
            Some(o) => open_after(o, b),
            None => None,
        }),
    decreases b.len(),
{
    if b.len() == 0 {
        assert(a + b =~= a);
    } else {
        lemma_open_after_concat(open, a, b.drop_last());
        assert((a + b).drop_last() =~= a + b.drop_last());
        assert((a + b).last() == b.last());
    }
}

/// Of events that leave `k` open, each event that begins something is
/// ended later, or it is the one that began `k`.
pub proof fn lemma_open_trace(events: Seq<Event>, k: (bool, Seq<char>), i: int)
    requires
        open_after(None, events) == Some(Some(k)),
        0 <= i < events.len(),
        begins(events[i]) is Some,
    ensures
        is_ended(events, i) || begins(events[i]) == Some(k),
    decreases events.len(), 0int,
{
    let front = events.drop_last();
    let last = events.last();
    let o = open_after(None, front)->0;
    if begins(last) is Some {
        if i < front.len() {
            lemma_closed_trace(front, i);
            let j = choose|j: int| i < j < front.len() && ends(#[trigger] front[j]) == begins(
                front[i],
            );
            assert(ends(events[j]) == begins(events[i]));
        }
    } else {
        assert(o == Some(k));
        lemma_open_trace(front, k, i);
        if is_ended(front, i) {
            let j = choose|j: int| i < j < front.len() && ends(#[trigger] front[j]) == begins(
                front[i],
            );
            assert(ends(events[j]) == begins(events[i]));
        }
    }
}

/// Of events that leave nothing open, each event that begins something
/// is followed by an event that ends it.
pub proof fn lemma_closed_trace(events: Seq<Event>, i: int)
    requires
        open_after(None, events) == Some(None::<(bool, Seq<char>)>),
        0 <= i < events.len(),
        begins(events[i]) is Some,
    ensures
        is_ended(events, i),
    decreases events.len(), 1int,
{
    let front = events.drop_last();
    let last = events.last();
    let o = open_after(None, front)->0;
    if ends(last) is Some {
        let k = ends(last)->0;
        assert(o == Some(k));
        assert(i < front.len());
        lemma_open_trace(front, k, i);
        if is_ended(front, i) {
            let j = choose|j: int| i < j < front.len() && ends(#[trigger] front[j]) == begins(
                front[i],
            );
            assert(ends(events[j]) == begins(events[i]));
        } else {
            assert(ends(events[events.len() - 1]) == begins(events[i]));
        }
    } else {
        assert(begins(last) is None);
        assert(i < front.len());
        lemma_closed_trace(front, i);
        let j = choose|j: int| i < j < front.len() && ends(#[trigger] front[j]) == begins(front[i]);
        assert(ends(events[j]) == begins(events[i]));
    }
}

} // verus!
