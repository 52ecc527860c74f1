//! What is sent to the model at the start of a turn.

use crate::copying::holds_text;
use crate::protocol::items::{ResponseItem, ResponseItemView};
use vstd::prelude::*;

verus! {

/// The id under which an item calls a tool, if it does.
pub open spec fn call_id_of(item: ResponseItemView) -> Option<Seq<char>> {
    match item {
        ResponseItemView::FunctionCall { call_id, .. } => Some(call_id),
        ResponseItemView::LocalShellCall { call_id, .. } => call_id,
        ResponseItemView::CustomToolCall { call_id, .. } => Some(call_id),
        _ => None,
    }
}

/// The id of the call that an item answers, if it answers one.
pub open spec fn answered_id_of(item: ResponseItemView) -> Option<Seq<char>> {
    match item {
        ResponseItemView::FunctionCallOutput { call_id, .. } => Some(call_id),
        ResponseItemView::CustomToolCallOutput { call_id, .. } => Some(call_id),
        _ => None,
    }
}

/// Some item of `items` answers the call `id`.
pub open spec fn is_answered(items: Seq<ResponseItemView>, id: Seq<char>) -> bool {
    exists|j: int| 0 <= j < items.len() && answered_id_of(#[trigger] items[j]) == Some(id)
}

pub open spec fn aborted_output(id: Seq<char>) -> ResponseItemView {
    ResponseItemView::CustomToolCallOutput { call_id: id, output: "aborted"@ }
}

/// One output that says "aborted" for each call among the first `n`
/// items that no item answers.
pub open spec fn missing_outputs(items: Seq<ResponseItemView>, n: int) -> Seq<ResponseItemView>
    decreases n,
{
    if n <= 0 {
        Seq::empty()
    } else {
        match call_id_of(items[n - 1]) {
            Some(id) => if is_answered(items, id) {
                missing_outputs(items, n - 1)
            } else {
                missing_outputs(items, n - 1).push(aborted_output(id))
            },
            None => missing_outputs(items, n - 1),
        }
    }
}

/// The input of a turn: the items, with the outputs that are missing in
/// front.
pub open spec fn completed_input(items: Seq<ResponseItemView>) -> Seq<ResponseItemView> {
    missing_outputs(items, items.len() as int) + items
}

proof fn lemma_missing_holds(items: Seq<ResponseItemView>, n: int, k: int)
    requires
        0 <= k < n <= items.len(),
        call_id_of(items[k]) is Some,
        !is_answered(items, call_id_of(items[k])->0),
    ensures
        missing_outputs(items, n).contains(aborted_output(call_id_of(items[k])->0)),
    decreases n,
{
    let id = call_id_of(items[k])->0;
    if k == n - 1 {
        let m = missing_outputs(items, n);
        assert(m.last() == aborted_output(id));
        assert(m[m.len() - 1] == aborted_output(id));
    } else {
        lemma_missing_holds(items, n - 1, k);
        let before = missing_outputs(items, n - 1);
        let j = choose|j: int| 0 <= j < before.len() && before[j] == aborted_output(id);
        let m = missing_outputs(items, n);
        assert(m[j] == aborted_output(id));
    }
}

proof fn lemma_missing_are_outputs(items: Seq<ResponseItemView>, n: int)
    requires
        0 <= n <= items.len(),
    ensures
        forall|j: int|
            0 <= j < missing_outputs(items, n).len() ==> call_id_of(
                #[trigger] missing_outputs(items, n)[j],
            ) is None,
    decreases n,
{
    if n > 0 {
        lemma_missing_are_outputs(items, n - 1);
        let before = missing_outputs(items, n - 1);
        let m = missing_outputs(items, n);
        assert forall|j: int| 0 <= j < m.len() implies call_id_of(#[trigger] m[j]) is None by {
            if j < before.len() {
                assert(m[j] == before[j]);
            }
        }
    }
}

/// In the input of a turn every call is answered: for each item that
/// calls a tool there is an item that answers that call.
pub proof fn lemma_every_call_answered(items: Seq<ResponseItemView>, k: int)
    requires
        0 <= k < completed_input(items).len(),
        call_id_of(completed_input(items)[k]) is Some,
    ensures
        is_answered(completed_input(items), call_id_of(completed_input(items)[k])->0),
{
    let n = items.len() as int;
    let m = missing_outputs(items, n);
    let all = completed_input(items);
    lemma_missing_are_outputs(items, n);
    if k < m.len() {
        assert(all[k] == m[k]);
    } else {
        let src = k - m.len();
        assert(all[k] == items[src]);
        let id = call_id_of(items[src])->0;
        if is_answered(items, id) {
            let j = choose|j: int| 0 <= j < items.len() && answered_id_of(#[trigger] items[j])
                == Some(id);
            assert(all[m.len() + j] == items[j]);
            assert(answered_id_of(all[m.len() + j]) == Some(id));
        } else {
            lemma_missing_holds(items, n, src);
            let j = choose|j: int| 0 <= j < m.len() && m[j] == aborted_output(id);
            assert(all[j] == m[j]);
            assert(answered_id_of(all[j]) == Some(id));
        }
    }
}

fn answered_ids(items: &Vec<ResponseItem>) -> (r: Vec<String>)
    ensures
        forall|id: Seq<char>| r.deep_view().contains(id) <==> is_answered(items.deep_view(), id),
{
    let mut out: Vec<String> = Vec::new();
    let mut i: usize = 0;
    proof {
        assert(out.deep_view() =~= Seq::<Seq<char>>::empty());
    }
    while i < items.len()
        invariant
            i <= items.len(),
            forall|id: Seq<char>|
                out.deep_view().contains(id) <==> exists|j: int|
                    0 <= j < i && answered_id_of(#[trigger] items.deep_view()[j]) == Some(id),
        decreases items.len() - i,
    {
        let ghost o0 = out.deep_view();
        let found = match &items[i] {
            ResponseItem::FunctionCallOutput { call_id, .. } => Some(call_id.clone()),
            ResponseItem::CustomToolCallOutput { call_id, .. } => Some(call_id.clone()),
            _ => None,
        };
        match found {
            Some(id) => {
                let ghost idv = id@;
                out.push(id);
                proof {
                    assert(out.deep_view() =~= o0.push(idv));
                    assert forall|x: Seq<char>| out.deep_view().contains(x) <==> exists|j: int|
                        0 <= j < i + 1 && answered_id_of(#[trigger] items.deep_view()[j]) == Some(
                            x,
                        ) by {
                        if out.deep_view().contains(x) {
                            let w = choose|w: int|
                                0 <= w < out.deep_view().len() && out.deep_view()[w] == x;
                            if w < o0.len() {
                                assert(o0[w] == x);
                                assert(o0.contains(x));
                            } else {
                                assert(answered_id_of(items.deep_view()[i as int]) == Some(x));
                            }
                        }
                        if exists|j: int|
                            0 <= j < i + 1 && answered_id_of(#[trigger] items.deep_view()[j])
                                == Some(x) {
                            let j = choose|j: int|
                                0 <= j < i + 1 && answered_id_of(#[trigger] items.deep_view()[j])
                                    == Some(x);
                            if j < i {
                                assert(o0.contains(x));
                                let w = choose|w: int| 0 <= w < o0.len() && o0[w] == x;
                                assert(out.deep_view()[w] == x);
                            } else {
                                assert(out.deep_view()[o0.len() as int] == x);
                            }
                        }
                    }
                }
            },
            None => {
                proof {
                    assert(answered_id_of(items.deep_view()[i as int]) is None);
                    assert forall|x: Seq<char>| out.deep_view().contains(x) <==> exists|j: int|
                        0 <= j < i + 1 && answered_id_of(#[trigger] items.deep_view()[j]) == Some(
                            x,
                        ) by {
                        if exists|j: int|
                            0 <= j < i + 1 && answered_id_of(#[trigger] items.deep_view()[j])
                                == Some(x) {
                            let j = choose|j: int|
                                0 <= j < i + 1 && answered_id_of(#[trigger] items.deep_view()[j])
                                    == Some(x);
                            assert(j < i);
                        }
                    }
                }
            },
        }
        i += 1;
    }
    out
}

/// The outputs to put in front of the input of a turn: one that says
/// "aborted" for each call that nothing answers.
pub fn synthesize_missing_outputs(items: &Vec<ResponseItem>) -> (r: Vec<ResponseItem>)
    ensures
        r.deep_view() == missing_outputs(items.deep_view(), items.deep_view().len() as int),
{
    let answered = answered_ids(items);
    let mut out: Vec<ResponseItem> = Vec::new();
    let mut i: usize = 0;
    proof {
        assert(out.deep_view() =~= missing_outputs(items.deep_view(), 0));
    }
    while i < items.len()
        invariant
            i <= items.len(),
            forall|id: Seq<char>|
                answered.deep_view().contains(id) <==> is_answered(items.deep_view(), id),
            out.deep_view() == missing_outputs(items.deep_view(), i as int),
        decreases items.len() - i,
    {
        let ghost o0 = out.deep_view();
        let id = match &items[i] {
            ResponseItem::FunctionCall { call_id, .. } => Some(call_id.clone()),
            ResponseItem::LocalShellCall { call_id, .. } => crate::copying::copy_opt_string(
                call_id,
            ),
            ResponseItem::CustomToolCall { call_id, .. } => Some(call_id.clone()),
            _ => None,
        };
        proof {
            assert(id.deep_view() == call_id_of(items.deep_view()[i as int]));
        }
        match id {
            Some(c) => {
                if !holds_text(&answered, c.as_str()) {
                    let ghost cv = c@;
                    out.push(
                        ResponseItem::CustomToolCallOutput {
                            call_id: c,
                            output: String::from_str("aborted"),
                        },
                    );
                    proof {
                        assert(out.deep_view() =~= o0.push(aborted_output(cv)));
                    }
                }
            },
            None => {},
        }
        i += 1;
    }
    out
}

/// The input of a turn: the items, with the outputs that are missing
/// in front, so that every call is answered.
pub fn complete_turn_input(items: Vec<ResponseItem>) -> (r: Vec<ResponseItem>)
    ensures
        r.deep_view() == completed_input(items.deep_view()),
{
    let mut out = synthesize_missing_outputs(&items);
    let mut rest = items;
    let ghost a = out.deep_view();
    let ghost b = rest.deep_view();
    out.append(&mut rest);
    proof {
        assert(out.deep_view() =~= a + b);
    }
    out
}

} // verus!
