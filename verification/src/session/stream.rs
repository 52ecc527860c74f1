//! One turn with the model: what its stream brings, and when a turn
//! that failed is tried again.

use crate::protocol::events::{notice_of, Event, EventMsg};
use crate::protocol::items::ResponseItem;
use crate::text::{push_all, push_str, string_of};
use crate::numfmt::decimal_chars;
use vstd::prelude::*;

verus! {

/// What the stream of a model brings.
#[derive(Debug, PartialEq, Eq)]
pub enum ResponseEvent {
    Created,
    OutputItemDone(ResponseItem),
    WebSearchCallBegin { call_id: String },
    Completed { tokens_in_context_window: Option<u64> },
    OutputTextDelta(String),
    ReasoningSummaryDelta(String),
    ReasoningSummaryPartAdded,
    ReasoningContentDelta(String),
}

/// Why a turn failed.
#[derive(Debug, PartialEq, Eq)]
pub enum TurnError {
    Interrupted,
    EnvVar(String),
    UsageLimitReached(String),
    UsageNotIncluded,
    /// The stream broke; the provider may say after how many
    /// milliseconds to come back.
    Stream { message: String, retry_after_ms: Option<u64> },
    Other(String),
}

/// What a turn does with what its stream brought.
#[derive(Debug)]
pub enum StreamStep {
    /// The client is told, and the stream is read on.
    Forward(Vec<EventMsg>),
    /// An item of the answer is done: it is to be sent on its way,
    /// and the stream is read on.
    Item(ResponseItem),
    /// The answer is complete: the client is told, and the turn ends
    /// with the items that were done.
    Finished { messages: Vec<EventMsg>, tokens_in_context_window: Option<u64> },
    /// The turn failed.
    Failed(TurnError),
}

/// What the client is told of what the stream brought, as `notice_of`
/// counts it; `None` where it is told nothing. A step of the
/// assistant's text is kept from the client in a task that checks
/// code, and raw content of a reasoning wherever it is not to be
/// shown.
pub open spec fn forwarded(event: ResponseEvent, is_review_mode: bool, show_raw: bool) -> Option<
    (int, Seq<char>, Seq<char>),
> {
    match event {
        ResponseEvent::WebSearchCallBegin { call_id } => Some((7, call_id@, Seq::empty())),
        ResponseEvent::OutputTextDelta(delta) => if is_review_mode {
            None
        } else {
            Some((3, delta@, Seq::empty()))
        },
        ResponseEvent::ReasoningSummaryDelta(delta) => Some((4, delta@, Seq::empty())),
        ResponseEvent::ReasoningSummaryPartAdded => Some((6, Seq::empty(), Seq::empty())),
        ResponseEvent::ReasoningContentDelta(delta) => if show_raw {
            Some((5, delta@, Seq::empty()))
        } else {
            None
        },
        _ => None,
    }
}

/// Whether a step ends the turn as failed because the stream closed
/// before the answer was complete.
pub open spec fn closed_early(step: StreamStep) -> bool {
    step matches StreamStep::Failed(TurnError::Stream { message, retry_after_ms }) && (message@
        == "stream closed before response.completed"@ && retry_after_ms is None)
}

/// Whether a step ends the turn: the client is told the count of
/// tokens first, and then the diff of the turn where there is one.
pub open spec fn finishes(step: StreamStep, tokens: Option<u64>, diff: Option<Seq<char>>) -> bool {
    step matches StreamStep::Finished { messages, tokens_in_context_window } && (
    tokens_in_context_window == tokens && messages@.len() == (if diff is Some {
        2int
    } else {
        1int
    }) && messages@[0] is TokenCount && (diff is Some ==> messages@[1] is TurnDiff
        && messages@[1]->TurnDiff_unified_diff@ == diff->0))
}

/// Whether a step tells the client what `forwarded` says, and no
/// more.
pub open spec fn forwards(step: StreamStep, told: Option<(int, Seq<char>, Seq<char>)>) -> bool {
    step matches StreamStep::Forward(messages) && (match told {
        Some(t) => messages@.len() == 1 && notice_of(messages@[0]) == Some(t),
        None => messages@.len() == 0,
    })
}

/// Takes up what the stream of the model brought next. A stream that
/// closed before its answer was complete makes the turn fail, and so
/// does an error of the stream. An item that is done goes on its way.
/// The complete answer ends the turn. Of everything else the client is
/// told as `forwarded` says.
pub fn stream_step(
    next: Option<Result<ResponseEvent, TurnError>>,
    is_review_mode: bool,
    show_raw: bool,
    turn_diff: Option<String>,
) -> (r: StreamStep)
    ensures
        match next {
            None => closed_early(r),
            Some(Err(e)) => r == StreamStep::Failed(e),
            Some(Ok(ResponseEvent::OutputItemDone(item))) => r == StreamStep::Item(item),
            Some(Ok(ResponseEvent::Completed { tokens_in_context_window })) => finishes(
                r,
                tokens_in_context_window,
                turn_diff.deep_view(),
            ),
            Some(Ok(event)) => forwards(r, forwarded(event, is_review_mode, show_raw)),
        },
{
    let event = match next {
        None => {
            return StreamStep::Failed(
                TurnError::Stream {
                    message: String::from_str("stream closed before response.completed"),
                    retry_after_ms: None,
                },
            );
        },
        Some(Err(e)) => {
            return StreamStep::Failed(e);
        },
        Some(Ok(event)) => event,
    };
    let mut messages: Vec<EventMsg> = Vec::new();
    match event {
        ResponseEvent::Created => {},
        ResponseEvent::OutputItemDone(item) => {
            return StreamStep::Item(item);
        },
        ResponseEvent::WebSearchCallBegin { call_id } => {
            messages.push(EventMsg::WebSearchBegin { call_id });
        },
        ResponseEvent::Completed { tokens_in_context_window } => {
            messages.push(EventMsg::TokenCount);
            match turn_diff {
                Some(unified_diff) => {
                    messages.push(EventMsg::TurnDiff { unified_diff });
                },
                None => {},
            }
            return StreamStep::Finished { messages, tokens_in_context_window };
        },
        ResponseEvent::OutputTextDelta(delta) => {
            if !is_review_mode {
                messages.push(EventMsg::AgentMessageDelta { delta });
            }
        },
        ResponseEvent::ReasoningSummaryDelta(delta) => {
            messages.push(EventMsg::AgentReasoningDelta { delta });
        },
        ResponseEvent::ReasoningSummaryPartAdded => {
            messages.push(EventMsg::AgentReasoningSectionBreak);
        },
        ResponseEvent::ReasoningContentDelta(delta) => {
            if show_raw {
                messages.push(EventMsg::AgentReasoningRawContentDelta { delta });
            }
        },
    }
    StreamStep::Forward(messages)
}

/// Whether a turn that failed this way may be tried again at all: not
/// one that was interrupted, that lacks a variable of the environment,
/// or that ran into a limit of usage.
pub open spec fn may_retry(e: TurnError) -> bool {
    e is Stream || e is Other
}

/// What follows a turn that failed.
#[derive(Debug, PartialEq, Eq)]
pub enum RetryStep {
    /// The failure ends the turn.
    GiveUp,
    /// The turn is tried again, as try `retries`, after the wait that
    /// the provider asked for, or after the usual wait where it asked
    /// for none.
    Retry { retries: u64, retry_after_ms: Option<u64> },
}

/// What follows a turn that failed, after `retries` earlier tries of
/// at most `max_retries`.
pub open spec fn retry_outcome(e: TurnError, retries: u64, max_retries: u64) -> RetryStep {
    if may_retry(e) && retries < max_retries {
        RetryStep::Retry {
            retries: (retries + 1) as u64,
            retry_after_ms: match e {
                TurnError::Stream { retry_after_ms, .. } => retry_after_ms,
                _ => None,
            },
        }
    } else {
        RetryStep::GiveUp
    }
}

/// Two to the power of `n`.
pub open spec fn doubled(n: nat) -> nat
    decreases n,
{
    if n == 0 {
        1
    } else {
        2 * doubled((n - 1) as nat)
    }
}

/// The usual wait before try `retries`, in milliseconds: 200, doubled
/// with each try up to the tenth, from where on it stays.
pub open spec fn backoff_of(retries: u64) -> nat {
    200 * doubled(
        if retries < 10 {
            retries as nat
        } else {
            10
        },
    )
}

/// The wait before a try, in milliseconds: the one that the provider
/// asked for or, where it asked for none, the usual one.
pub open spec fn wait_of(retries: u64, retry_after_ms: Option<u64>) -> nat {
    match retry_after_ms {
        Some(ms) => ms as nat,
        None => backoff_of(retries),
    }
}

/// Doubling grows, and ten doublings make 1024.
pub proof fn lemma_doubled_bound(n: nat)
    requires
        n <= 10,
    ensures
        doubled(n) <= doubled(10),
        doubled(10) == 1024,
    decreases 10 - n,
{
    reveal_with_fuel(doubled, 11);
    if n < 10 {
        lemma_doubled_bound(n + 1);
    }
}

/// The usual wait before a try, in milliseconds.
pub fn backoff_ms(retries: u64) -> (r: u64)
    ensures
        r == backoff_of(retries),
{
    let steps: u64 = if retries < 10 {
        retries
    } else {
        10
    };
    let mut wait: u64 = 200;
    let mut i: u64 = 0;
    while i < steps
        invariant
            i <= steps <= 10,
            wait == 200 * doubled(i as nat),
        decreases steps - i,
    {
        proof {
            lemma_doubled_bound((i + 1) as nat);
        }
        wait = wait * 2;
        i += 1;
    }
    wait
}

/// The wait before a try, in milliseconds.
pub fn retry_wait_ms(retries: u64, retry_after_ms: Option<u64>) -> (r: u64)
    ensures
        r == wait_of(retries, retry_after_ms),
{
    match retry_after_ms {
        Some(ms) => ms,
        None => backoff_ms(retries),
    }
}

/// Decides what follows a turn that failed.
pub fn retry_step(e: &TurnError, retries: u64, max_retries: u64) -> (r: RetryStep)
    ensures
        r == retry_outcome(*e, retries, max_retries),
{
    match e {
        TurnError::Stream { retry_after_ms, .. } => {
            if retries < max_retries {
                RetryStep::Retry { retries: retries + 1, retry_after_ms: *retry_after_ms }
            } else {
                RetryStep::GiveUp
            }
        },
        TurnError::Other(_) => {
            if retries < max_retries {
                RetryStep::Retry { retries: retries + 1, retry_after_ms: None }
            } else {
                RetryStep::GiveUp
            }
        },
        _ => RetryStep::GiveUp,
    }
}

/// What the client is told before a turn is tried again.
pub open spec fn retry_note_text(
    error: Seq<char>,
    retries: u64,
    max_retries: u64,
    delay: Seq<char>,
) -> Seq<char> {
    "stream error: "@ + error + "; retrying "@ + crate::numfmt::decimal(retries as nat) + "/"@
        + crate::numfmt::decimal(max_retries as nat) + " in "@ + delay
}

/// Tells the client that a turn is tried again: why, which try of how
/// many it is, and after what wait (as the caller words it).
pub fn retry_note(sub_id: &str, error: &str, retries: u64, max_retries: u64, delay: &str) -> (r:
    Event)
    ensures
        r.id@ == sub_id@,
        r.msg matches EventMsg::StreamError { message } && message@ == retry_note_text(
            error@,
            retries,
            max_retries,
            delay@,
        ),
{
    let mut m: Vec<char> = Vec::new();
    push_str(&mut m, "stream error: ");
    push_str(&mut m, error);
    push_str(&mut m, "; retrying ");
    let a = decimal_chars(retries);
    push_all(&mut m, &a);
    push_str(&mut m, "/");
    let b = decimal_chars(max_retries);
    push_all(&mut m, &b);
    push_str(&mut m, " in ");
    push_str(&mut m, delay);
    Event { id: String::from_str(sub_id), msg: EventMsg::StreamError { message: string_of(&m) } }
}

} // verus!
