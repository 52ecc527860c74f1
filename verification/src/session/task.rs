//! A task: the turns that answer one input of the user.

use crate::numfmt::{decimal_chars, signed_decimal_chars};
use crate::protocol::events::{Event, EventMsg, ReviewOutputEvent};
use crate::protocol::items::{
    answer_item, ContentItem, ContentItemView, InputItem, ResponseInputItem, ResponseItem,
    ResponseItemView,
};
use crate::protocol::TurnAbortReason;
use crate::copying::copy_opt_string;
use crate::protocol::items::copy_items;
use crate::session::state::{
    input_content, input_message, prompt_items, AgentTask, SessionState,
};
use crate::session::task_trace::{
    ends_once, lemma_started_task_ends_once, lemma_under_way_push, starts_task, under_way_after,
    under_way_then,
};
use crate::session::turn_input::{
    call_id_of, complete_turn_input, completed_input, is_answered, lemma_every_call_answered,
};
use crate::text::{chars_of, push_all, push_str, same_text, string_of, sub_vec};
use vstd::prelude::*;

verus! {

/// An item of the model's answer, with what the model is told in
/// return, if anything.
#[derive(Debug)]
pub struct ProcessedResponseItem {
    pub item: ResponseItem,
    pub response: Option<ResponseInputItem>,
}

/// What a turn came to.
#[derive(Debug)]
pub struct TurnRunResult {
    pub processed_items: Vec<ProcessedResponseItem>,
    pub tokens_in_context_window: Option<u64>,
}

/// What goes into the conversation for an item of the model's answer:
/// a message of the assistant and a reasoning, each by itself; a call
/// with its answer; and nothing for anything else.
pub open spec fn recorded_for(p: ProcessedResponseItem) -> Seq<ResponseItemView> {
    match (p.item.deep_view(), p.response) {
        (ResponseItemView::Message { role, .. }, None) => if role == "assistant"@ {
            seq![p.item.deep_view()]
        } else {
            Seq::empty()
        },
        (ResponseItemView::Reasoning { .. }, None) => seq![p.item.deep_view()],
        (
            ResponseItemView::LocalShellCall { .. },
            Some(ResponseInputItem::FunctionCallOutput { .. }),
        ) => seq![p.item.deep_view(), answer_item(p.response->0)],
        (
            ResponseItemView::FunctionCall { .. },
            Some(ResponseInputItem::FunctionCallOutput { .. }),
        ) => seq![p.item.deep_view(), answer_item(p.response->0)],
        (
            ResponseItemView::FunctionCall { .. },
            Some(ResponseInputItem::McpToolCallOutput { .. }),
        ) => seq![p.item.deep_view(), answer_item(p.response->0)],
        (
            ResponseItemView::CustomToolCall { .. },
            Some(ResponseInputItem::CustomToolCallOutput { .. }),
        ) => seq![p.item.deep_view(), answer_item(p.response->0)],
        _ => Seq::empty(),
    }
}

/// What goes into the conversation for the first `n` items of the
/// model's answer.
pub open spec fn recorded(processed: Seq<ProcessedResponseItem>, n: int) -> Seq<ResponseItemView>
    decreases n,
{
    if n <= 0 {
        Seq::empty()
    } else {
        recorded(processed, n - 1) + recorded_for(processed[n - 1])
    }
}

/// How many of the first `n` items of the model's answer the model is
/// told something in return for.
pub open spec fn answers(processed: Seq<ProcessedResponseItem>, n: int) -> int
    decreases n,
{
    if n <= 0 {
        0
    } else {
        answers(processed, n - 1) + (if processed[n - 1].response is Some {
            1int
        } else {
            0int
        })
    }
}

/// Sorts out what a turn came to: what goes into the conversation,
/// and whether the model is told anything in return.
pub fn sort_processed(processed: &Vec<ProcessedResponseItem>) -> (r: (Vec<ResponseItem>, bool))
    ensures
        r.0.deep_view() == recorded(processed@, processed@.len() as int),
        r.1 == (answers(processed@, processed@.len() as int) > 0),
{
    let mut items: Vec<ResponseItem> = Vec::new();
    let mut told = false;
    let mut i: usize = 0;
    proof {
        assert(items.deep_view() =~= recorded(processed@, 0));
    }
    while i < processed.len()
        invariant
            i <= processed.len(),
            items.deep_view() == recorded(processed@, i as int),
            told == (answers(processed@, i as int) > 0),
            answers(processed@, i as int) >= 0,
        decreases processed.len() - i,
    {
        let p = &processed[i];
        let ghost before = items.deep_view();
        let keep_item = match (&p.item, &p.response) {
            (ResponseItem::Message { role, .. }, None) => same_text(role.as_str(), "assistant"),
            (ResponseItem::Reasoning { .. }, None) => true,
            (
                ResponseItem::LocalShellCall { .. },
                Some(ResponseInputItem::FunctionCallOutput { .. }),
            ) => true,
            (
                ResponseItem::FunctionCall { .. },
                Some(ResponseInputItem::FunctionCallOutput { .. }),
            ) => true,
            (
                ResponseItem::FunctionCall { .. },
                Some(ResponseInputItem::McpToolCallOutput { .. }),
            ) => true,
            (
                ResponseItem::CustomToolCall { .. },
                Some(ResponseInputItem::CustomToolCallOutput { .. }),
            ) => true,
            _ => false,
        };
        if keep_item {
            items.push(p.item.clone());
            match &p.response {
                Some(answer) => {
                    items.push(answer.to_item());
                    proof {
                        assert(items.deep_view() =~= before + seq![
                            p.item.deep_view(),
                            answer_item(*answer),
                        ]);
                    }
                },
                None => {
                    proof {
                        assert(items.deep_view() =~= before + seq![p.item.deep_view()]);
                    }
                },
            }
        } else {
            proof {
                assert(items.deep_view() =~= before + Seq::<ResponseItemView>::empty());
            }
        }
        if p.response.is_some() {
            told = true;
        }
        i += 1;
    }
    (items, told)
}

/// The last text that a content holds as output, among its first `n`
/// parts.
pub open spec fn last_output_text(content: Seq<ContentItemView>, n: int) -> Option<Seq<char>>
    decreases n,
{
    if n <= 0 {
        None
    } else {
        match content[n - 1] {
            ContentItemView::OutputText { text } => Some(text),
            _ => last_output_text(content, n - 1),
        }
    }
}

/// The last text that the assistant put out among the first `n`
/// items: the last output text of the last message of the assistant
/// that has one.
pub open spec fn last_assistant_message(items: Seq<ResponseItemView>, n: int) -> Option<Seq<char>>
    decreases n,
{
    if n <= 0 {
        None
    } else {
        match items[n - 1] {
            ResponseItemView::Message { role, content, .. } => if role == "assistant"@
                && last_output_text(content, content.len() as int) is Some {
                last_output_text(content, content.len() as int)
            } else {
                last_assistant_message(items, n - 1)
            },
            _ => last_assistant_message(items, n - 1),
        }
    }
}

fn last_text_of(content: &Vec<ContentItem>) -> (r: Option<String>)
    ensures
        r.deep_view() == last_output_text(content.deep_view(), content.deep_view().len() as int),
{
    let mut i: usize = content.len();
    while i > 0
        invariant
            i <= content.len(),
            last_output_text(content.deep_view(), content.deep_view().len() as int)
                == last_output_text(content.deep_view(), i as int),
        decreases i,
    {
        match &content[i - 1] {
            ContentItem::OutputText { text } => {
                return Some(text.clone());
            },
            _ => {},
        }
        i -= 1;
    }
    None
}

/// The last text that the assistant put out in the items of a turn.
pub fn get_last_assistant_message_from_turn(responses: &Vec<ResponseItem>) -> (r: Option<String>)
    ensures
        r.deep_view() == last_assistant_message(
            responses.deep_view(),
            responses.deep_view().len() as int,
        ),
{
    let mut i: usize = responses.len();
    while i > 0
        invariant
            i <= responses.len(),
            last_assistant_message(responses.deep_view(), responses.deep_view().len() as int)
                == last_assistant_message(responses.deep_view(), i as int),
        decreases i,
    {
        match &responses[i - 1] {
            ResponseItem::Message { role, content, .. } => {
                if same_text(role.as_str(), "assistant") {
                    let found = last_text_of(content);
                    if found.is_some() {
                        return found;
                    }
                }
            },
            _ => {},
        }
        i -= 1;
    }
    None
}

/// Whether the conversation has outgrown the limit beyond which it is
/// summarised: the count of tokens is known and not below the limit.
/// Without a limit of its own a session has the greatest limit there
/// is.
pub open spec fn limit_reached(tokens: Option<u64>, limit: Option<i64>) -> bool {
    match tokens {
        Some(t) => t as int >= (match limit {
            Some(l) => l as int,
            None => i64::MAX as int,
        }),
        None => false,
    }
}

pub fn token_limit_reached(tokens: Option<u64>, limit: Option<i64>) -> (r: bool)
    ensures
        r == limit_reached(tokens, limit),
{
    let bound: i64 = match limit {
        Some(l) => l,
        None => i64::MAX,
    };
    match tokens {
        Some(t) => {
            if bound < 0 {
                true
            } else {
                t >= bound as u64
            }
        },
        None => false,
    }
}

/// What the client is told where the conversation is above the limit
/// even after it was summarised.
pub open spec fn still_over_limit_text(tokens: Option<u64>, limit: Option<i64>) -> Seq<char> {
    "Conversation is still above the token limit after automatic summarization (limit "@
        + crate::numfmt::signed_decimal(
        match limit {
            Some(l) => l as int,
            None => i64::MAX as int,
        },
    ) + ", current "@ + (match tokens {
        Some(t) => crate::numfmt::decimal(t as nat),
        None => "unknown"@,
    }) + "). Please start a new session or trim your input."@
}

pub fn still_over_limit_message(tokens: Option<u64>, limit: Option<i64>) -> (r: String)
    ensures
        r@ == still_over_limit_text(tokens, limit),
{
    let bound: i64 = match limit {
        Some(l) => l,
        None => i64::MAX,
    };
    let mut m: Vec<char> = Vec::new();
    push_str(
        &mut m,
        "Conversation is still above the token limit after automatic summarization (limit ",
    );
    let a = signed_decimal_chars(bound);
    push_all(&mut m, &a);
    push_str(&mut m, ", current ");
    match tokens {
        Some(t) => {
            let b = decimal_chars(t);
            push_all(&mut m, &b);
        },
        None => {
            push_str(&mut m, "unknown");
        },
    }
    push_str(&mut m, "). Please start a new session or trim your input.");
    string_of(&m)
}

/// Where the first `c` stands in `s` from `from` on; the length of `s`
/// where it stands nowhere.
pub open spec fn first_index(s: Seq<char>, c: char, from: int) -> int
    decreases s.len() - from,
{
    if from < 0 || from >= s.len() {
        s.len() as int
    } else if s[from] == c {
        from
    } else {
        first_index(s, c, from + 1)
    }
}

/// Where the last `c` stands among the first `n` of `s`; -1 where it
/// stands nowhere.
pub open spec fn last_index(s: Seq<char>, c: char, n: int) -> int
    decreases n,
{
    if n <= 0 || n > s.len() {
        -1
    } else if s[n - 1] == c {
        n - 1
    } else {
        last_index(s, c, n - 1)
    }
}

/// The part of a text from its first opening brace to its last closing
/// brace, where the one stands before the other.
pub open spec fn braced_part(s: Seq<char>) -> Option<Seq<char>> {
    let a = first_index(s, '{', 0);
    let b = last_index(s, '}', s.len() as int);
    if a < s.len() && 0 <= b && a < b {
        Some(s.subrange(a, b + 1))
    } else {
        None
    }
}

/// The part of a text that may hold the outcome of a code check where
/// the text as a whole does not: from its first opening brace to its
/// last closing brace.
pub fn review_json_slice(text: &str) -> (r: Option<String>)
    ensures
        r.deep_view() == braced_part(text@),
{
    let v = chars_of(text);
    let mut a: usize = 0;
    while a < v.len() && v[a] != '{'
        invariant
            a <= v.len(),
            first_index(v@, '{', 0) == first_index(v@, '{', a as int),
        decreases v.len() - a,
    {
        a += 1;
    }
    let mut b: usize = v.len();
    while b > 0 && v[b - 1] != '}'
        invariant
            b <= v.len(),
            last_index(v@, '}', v@.len() as int) == last_index(v@, '}', b as int),
        decreases b,
    {
        b -= 1;
    }
    if a < v.len() && b > 0 && a < b - 1 {
        let part = sub_vec(&v, a, b);
        Some(string_of(&part))
    } else {
        None
    }
}

/// The outcome of a code check as the last message of the task gives
/// it: what the message as a whole stands for; else what its part in
/// braces stands for; else an outcome that holds the message as its
/// explanation and nothing else.
pub fn parse_review_output_event(
    text: &str,
    whole: Option<ReviewOutputEvent>,
    part: Option<ReviewOutputEvent>,
) -> (r: ReviewOutputEvent)
    ensures
        review_view(r) == decoded_review(text@, whole, part),
        match whole {
            Some(ev) => r == ev,
            None => match part {
                Some(ev) => if braced_part(text@) is Some {
                    r == ev
                } else {
                    r.overall_explanation@ == text@ && r.structured is None
                },
                None => r.overall_explanation@ == text@ && r.structured is None,
            },
        },
{
    match whole {
        Some(ev) => ev,
        None => {
            let has_part = review_json_slice(text).is_some();
            match part {
                Some(ev) => if has_part {
                    ev
                } else {
                    ReviewOutputEvent { overall_explanation: String::from_str(text), structured: None }
                },
                None => ReviewOutputEvent {
                    overall_explanation: String::from_str(text),
                    structured: None,
                },
            }
        },
    }
}

/// How far a task has come.
#[derive(Clone, Copy, Debug, PartialEq, Eq, Structural)]
pub enum TaskPhase {
    /// A turn with the model is under way.
    InTurn,
    /// The conversation is being summarised.
    Compacting,
    /// The outcome of a code check is being read from the last
    /// message.
    Reviewing,
    /// The task is over.
    Finished,
}

/// A task on its way.
#[derive(Debug)]
pub struct TaskRun {
    pub sub_id: String,
    pub is_review_mode: bool,
    /// The conversation of a task that checks code, which it keeps to
    /// itself.
    pub review_history: Vec<ResponseItem>,
    pub auto_compact_recently_attempted: bool,
    pub last_agent_message: Option<String>,
    pub phase: TaskPhase,
}

impl TaskRun {
    /// What holds of a task on its way: it has a last message only
    /// once its turns are over, and it reads the outcome of a code
    /// check only from a last message.
    pub open spec fn wf(&self) -> bool {
        &&& (self.phase == TaskPhase::InTurn || self.phase == TaskPhase::Compacting
            ==> self.last_agent_message is None)
        &&& (self.phase == TaskPhase::Reviewing ==> self.is_review_mode
            && self.last_agent_message is Some)
    }
}

/// What the caller is to do for a task.
#[derive(Debug)]
pub enum TaskAction {
    /// Tell the client.
    Emit(Event),
    /// Write the items to the record of the session.
    Persist(Vec<ResponseItem>),
    /// Run a turn with the model on this input.
    RunTurn(Vec<ResponseItem>),
    /// Summarise the conversation.
    Compact,
    /// Tell whoever listens that the turn of the agent is complete.
    Notify { last_assistant_message: Option<String> },
    /// Read the outcome of a code check from the message, as a whole
    /// and from its part in braces.
    DecodeReview { text: String, part: Option<String> },
}

/// The events among the actions, in order.
pub open spec fn told(actions: Seq<TaskAction>) -> Seq<Event>
    decreases actions.len(),
{
    if actions.len() == 0 {
        Seq::empty()
    } else {
        match actions.last() {
            TaskAction::Emit(e) => told(actions.drop_last()).push(e),
            _ => told(actions.drop_last()),
        }
    }
}

/// What an event of a task says to the client.
pub enum TaskEventView {
    Started { window: Option<u64> },
    Error { message: Seq<char> },
    ExitedReview { outcome: Option<(Seq<char>, Option<Seq<char>>)> },
    Complete { last: Option<Seq<char>> },
    Aborted { reason: TurnAbortReason },
    Other,
}

/// What an action for a task asks of the caller.
pub enum TaskActionView {
    Emit { id: Seq<char>, event: TaskEventView },
    Persist(Seq<ResponseItemView>),
    RunTurn(Seq<ResponseItemView>),
    Compact,
    Notify { last: Option<Seq<char>> },
    DecodeReview { text: Seq<char>, part: Option<Seq<char>> },
}

/// What the outcome of a code check says.
pub open spec fn review_view(r: ReviewOutputEvent) -> (Seq<char>, Option<Seq<char>>) {
    (r.overall_explanation@, r.structured.deep_view())
}

/// What a message of a task says.
pub open spec fn event_view(msg: EventMsg) -> TaskEventView {
    match msg {
        EventMsg::TaskStarted { model_context_window } => TaskEventView::Started {
            window: model_context_window,
        },
        EventMsg::Error { message } => TaskEventView::Error { message: message@ },
        EventMsg::ExitedReviewMode { review_output } => TaskEventView::ExitedReview {
            outcome: match review_output {
                Some(r) => Some(review_view(r)),
                None => None,
            },
        },
        EventMsg::TaskComplete { last_agent_message } => TaskEventView::Complete {
            last: last_agent_message.deep_view(),
        },
        EventMsg::TurnAborted { reason } => TaskEventView::Aborted { reason },
        _ => TaskEventView::Other,
    }
}

/// What an action asks.
pub open spec fn action_view(a: TaskAction) -> TaskActionView {
    match a {
        TaskAction::Emit(e) => TaskActionView::Emit { id: e.id@, event: event_view(e.msg) },
        TaskAction::Persist(items) => TaskActionView::Persist(items.deep_view()),
        TaskAction::RunTurn(input) => TaskActionView::RunTurn(input.deep_view()),
        TaskAction::Compact => TaskActionView::Compact,
        TaskAction::Notify { last_assistant_message } => TaskActionView::Notify {
            last: last_assistant_message.deep_view(),
        },
        TaskAction::DecodeReview { text, part } => TaskActionView::DecodeReview {
            text: text@,
            part: part.deep_view(),
        },
    }
}

/// What the actions ask, one by one.
pub open spec fn actions_view(actions: Seq<TaskAction>) -> Seq<TaskActionView> {
    actions.map_values(|a: TaskAction| action_view(a))
}

/// The current task of a session once the task of a submission is
/// done: none, where it was that task; else the one that it was.
pub open spec fn task_left(current: Option<AgentTask>, sub_id: Seq<char>) -> Option<AgentTask> {
    match current {
        Some(task) => if task.sub_id@ == sub_id {
            None
        } else {
            Some(task)
        },
        None => None,
    }
}

/// Whether a step of a task left a session as it was, but for its
/// conversation, the input that waits, and its current task: the
/// input that waited is taken where a turn is asked for, and the
/// task is no longer current where it is done.
pub open spec fn step_kept(
    before: SessionState,
    after: SessionState,
    sub_id: Seq<char>,
    phase: TaskPhase,
) -> bool {
    &&& after == (SessionState {
        history: after.history,
        pending_input: after.pending_input,
        current_task: after.current_task,
        ..before
    })
    &&& after.current_task == (if phase == TaskPhase::Finished {
        task_left(before.current_task, sub_id)
    } else {
        before.current_task
    })
    &&& if phase == TaskPhase::InTurn {
        after.pending_input@.len() == 0
    } else {
        after.pending_input == before.pending_input
    }
}

/// The items that the input that came in meanwhile becomes.
pub open spec fn pending_items(pending: Seq<ResponseInputItem>) -> Seq<ResponseItemView> {
    pending.map_values(|a: ResponseInputItem| answer_item(a))
}

/// The message of the user that an input becomes.
pub open spec fn user_item(input: Seq<InputItem>) -> ResponseItemView {
    ResponseItemView::Message {
        id: None,
        role: "user"@,
        content: input_content(input, input.len() as int),
    }
}

/// The action that has items written to the record of the session,
/// where there are any.
pub open spec fn persist_part(items: Seq<ResponseItemView>) -> Seq<TaskActionView> {
    if items.len() > 0 {
        seq![TaskActionView::Persist(items)]
    } else {
        Seq::empty()
    }
}

/// What the next turn asks of the caller. A task that checks code
/// asks the model on its own conversation, with the input that came
/// in meanwhile at its end. Any other task has that input written to
/// the record and asks the model on the prompt of Plan Mode (where it
/// is due), the conversation of the session with that input in it,
/// and that input. Every call in what the model is asked on has an
/// answer, made up where it had none.
pub open spec fn next_turn_view(
    is_review_mode: bool,
    review_history: Seq<ResponseItemView>,
    prompt: Seq<ResponseItemView>,
    history: Seq<ResponseItemView>,
    pending: Seq<ResponseItemView>,
) -> Seq<TaskActionView> {
    if is_review_mode {
        seq![TaskActionView::RunTurn(completed_input(review_history + pending))]
    } else {
        persist_part(pending) + seq![
            TaskActionView::RunTurn(completed_input(prompt + (history + pending) + pending)),
        ]
    }
}

/// What the end of a task asks of the caller: to tell the client that
/// the task has left the mode in which code is checked, with the
/// outcome given, where it checked code; and then that the task is
/// complete, with the last message of the assistant.
pub open spec fn finish_view(
    sub_id: Seq<char>,
    is_review_mode: bool,
    outcome: Option<(Seq<char>, Option<Seq<char>>)>,
    last: Option<Seq<char>>,
) -> Seq<TaskActionView> {
    (if is_review_mode {
        seq![TaskActionView::Emit { id: sub_id, event: TaskEventView::ExitedReview { outcome } }]
    } else {
        Seq::empty()
    }) + seq![TaskActionView::Emit { id: sub_id, event: TaskEventView::Complete { last } }]
}

/// Whether a task in this phase is under way.
pub open spec fn task_open(phase: TaskPhase) -> bool {
    phase != TaskPhase::Finished
}

/// Every call among the items has its answer among them.
pub open spec fn all_answered(items: Seq<ResponseItemView>) -> bool {
    forall|k: int|
        0 <= k < items.len() && call_id_of(#[trigger] items[k]) is Some ==> is_answered(
            items,
            call_id_of(items[k])->0,
        )
}

/// Whether an action asks for a turn on an input in which every call
/// has its answer.
pub open spec fn asks_turn(action: TaskAction) -> bool {
    action matches TaskAction::RunTurn(input) && all_answered(input.deep_view())
}

fn tell(actions: &mut Vec<TaskAction>, sub_id: &str, msg: EventMsg)
    ensures
        final(actions)@.len() == old(actions)@.len() + 1,
        old(actions)@.is_prefix_of(final(actions)@),
        final(actions)@.last() matches TaskAction::Emit(e) && e.id@ == sub_id@ && e.msg == msg,
        actions_view(final(actions)@) == actions_view(old(actions)@).push(
            TaskActionView::Emit { id: sub_id@, event: event_view(msg) },
        ),
        told(final(actions)@) == told(old(actions)@).push(final(actions)@.last()->Emit_0),
        forall|o: bool, id: Seq<char>| #[trigger]
            under_way_after(o, told(final(actions)@), id) == under_way_then(
                under_way_after(o, told(old(actions)@), id),
                final(actions)@.last()->Emit_0,
                id,
            ),
{
    let ghost a0 = actions@;
    actions.push(TaskAction::Emit(Event { id: String::from_str(sub_id), msg }));
    proof {
        assert(actions@.drop_last() =~= a0);
        assert(actions_view(actions@) =~= actions_view(a0).push(
            TaskActionView::Emit { id: sub_id@, event: event_view(msg) },
        ));
        assert forall|o: bool, id: Seq<char>| #[trigger]
            under_way_after(o, told(actions@), id) == under_way_then(
                under_way_after(o, told(a0), id),
                actions@.last()->Emit_0,
                id,
            ) by {
            lemma_under_way_push(o, told(a0), actions@.last()->Emit_0, id);
        }
    }
}

fn act(actions: &mut Vec<TaskAction>, action: TaskAction)
    requires
        !(action is Emit),
    ensures
        final(actions)@ == old(actions)@.push(action),
        actions_view(final(actions)@) == actions_view(old(actions)@).push(action_view(action)),
        old(actions)@.is_prefix_of(final(actions)@),
        told(final(actions)@) == told(old(actions)@),
{
    let ghost a0 = actions@;
    actions.push(action);
    proof {
        assert(actions@.drop_last() =~= a0);
        assert(actions_view(actions@) =~= actions_view(a0).push(action_view(action)));
    }
}

fn to_items(answers: &Vec<ResponseInputItem>) -> (r: Vec<ResponseItem>)
    ensures
        r.deep_view() == pending_items(answers@),
        r@.len() == answers@.len(),
        forall|k: int| 0 <= k < r@.len() ==> (#[trigger] r@[k]).deep_view() == answer_item(answers@[k]),
{
    let mut out: Vec<ResponseItem> = Vec::new();
    let mut i: usize = 0;
    while i < answers.len()
        invariant
            i <= answers.len(),
            out@.len() == i,
            forall|k: int|
                0 <= k < out@.len() ==> (#[trigger] out@[k]).deep_view() == answer_item(answers@[k]),
        decreases answers.len() - i,
    {
        out.push(answers[i].to_item());
        i += 1;
    }
    proof {
        assert(out.deep_view() =~= pending_items(answers@));
    }
    out
}

/// Starts the next turn: the input that came in meanwhile joins the
/// conversation, and the model is asked on the whole of it, with an
/// answer made up for every call that has none.
fn begin_turn(state: &mut SessionState, run: &mut TaskRun, actions: &mut Vec<TaskAction>)
    ensures
        final(run).phase == TaskPhase::InTurn,
        final(run).sub_id == old(run).sub_id,
        final(run).is_review_mode == old(run).is_review_mode,
        final(run).auto_compact_recently_attempted == old(run).auto_compact_recently_attempted,
        final(run).last_agent_message == old(run).last_agent_message,
        told(final(actions)@) == told(old(actions)@),
        old(actions)@.is_prefix_of(final(actions)@),
        final(actions)@.len() > old(actions)@.len(),
        asks_turn(final(actions)@.last()),
        actions_view(final(actions)@) == actions_view(old(actions)@) + next_turn_view(
            old(run).is_review_mode,
            old(run).review_history.deep_view(),
            prompt_items(*old(state)),
            old(state).history.deep_view(),
            pending_items(old(state).pending_input@),
        ),
        final(run).review_history.deep_view() == (if old(run).is_review_mode {
            old(run).review_history.deep_view() + pending_items(old(state).pending_input@)
        } else {
            old(run).review_history.deep_view()
        }),
        final(state).history.deep_view() == (if old(run).is_review_mode {
            old(state).history.deep_view()
        } else {
            old(state).history.deep_view() + pending_items(old(state).pending_input@)
        }),
        final(state).plan_mode_prompt_recorded == old(state).plan_mode_prompt_recorded,
        final(state).approved_commands == old(state).approved_commands,
        final(state).pending_approvals == old(state).pending_approvals,
        final(state).current_task == old(state).current_task,
        final(state).plan_mode == old(state).plan_mode,
        final(state).pending_input@.len() == 0,
        old(run).is_review_mode ==> final(state).history == old(state).history,
        !old(run).is_review_mode ==> old(state).history.deep_view().is_prefix_of(
            final(state).history.deep_view(),
        ) && final(state).history.deep_view().len() == old(state).history.deep_view().len() + old(state).pending_input@.len(),
        *final(state) == (SessionState {
            history: final(state).history,
            pending_input: final(state).pending_input,
            ..*old(state)
        }),
{
    let ghost view0 = actions_view(actions@);
    let ghost review0 = run.review_history.deep_view();
    let pending_answers = state.get_pending_input();
    let pending = to_items(&pending_answers);
    let ghost pv = pending.deep_view();
    proof {
        assert(pv.len() == pending@.len());
        assert(prompt_items(*state) == prompt_items(*old(state)));
    }
    let turn_input = if run.is_review_mode {
        let mut more = pending;
        run.review_history.append(&mut more);
        proof {
            assert(run.review_history.deep_view() =~= review0 + pv);
        }
        copy_items(&run.review_history)
    } else {
        if pending.len() > 0 {
            state.history.record_items(&pending);
            act(actions, TaskAction::Persist(copy_items(&pending)));
        } else {
            proof {
                assert(pending.deep_view() =~= Seq::empty());
                assert(state.history.deep_view() + pending.deep_view()
                    =~= state.history.deep_view());
            }
            state.history.record_items(&pending);
        }
        state.turn_input_with_history(pending)
    };
    let input = complete_turn_input(turn_input);
    proof {
        assert forall|k: int|
            0 <= k < input.deep_view().len() && call_id_of(
                #[trigger] input.deep_view()[k],
            ) is Some implies is_answered(input.deep_view(), call_id_of(input.deep_view()[k])->0) by {
            lemma_every_call_answered(turn_input.deep_view(), k);
        }
    }
    act(actions, TaskAction::RunTurn(input));
    run.phase = TaskPhase::InTurn;
    proof {
        assert(actions_view(actions@) =~= view0 + next_turn_view(
            old(run).is_review_mode,
            review0,
            prompt_items(*old(state)),
            old(state).history.deep_view(),
            pv,
        ));
    }
}

/// Ends a task: the session forgets it, and the client is told that it
/// is complete, with the last message of the assistant. A task that
/// checked code leaves that mode first, with the outcome given.
fn finish(
    state: &mut SessionState,
    run: &mut TaskRun,
    review_output: Option<ReviewOutputEvent>,
    actions: &mut Vec<TaskAction>,
)
    requires
        under_way_after(false, told(old(actions)@), old(run).sub_id@) == Some(true)
            || under_way_after(true, told(old(actions)@), old(run).sub_id@) == Some(true),
    ensures
        final(run).phase == TaskPhase::Finished,
        final(run).sub_id == old(run).sub_id,
        final(run).is_review_mode == old(run).is_review_mode,
        final(run).last_agent_message == old(run).last_agent_message,
        final(run).auto_compact_recently_attempted == old(run).auto_compact_recently_attempted,
        old(actions)@.is_prefix_of(final(actions)@),
        final(actions)@.len() == old(actions)@.len() + (if old(run).is_review_mode {
            2int
        } else {
            1int
        }),
        completes(final(actions)@.last(), old(run).sub_id@, old(run).last_agent_message.deep_view()),
        actions_view(final(actions)@) == actions_view(old(actions)@) + finish_view(
            old(run).sub_id@,
            old(run).is_review_mode,
            match review_output {
                Some(r) => Some(review_view(r)),
                None => None,
            },
            old(run).last_agent_message.deep_view(),
        ),
        final(run).review_history == old(run).review_history,
        final(state).plan_mode_prompt_recorded == old(state).plan_mode_prompt_recorded,
        final(state).pending_input == old(state).pending_input,
        final(state).approved_commands == old(state).approved_commands,
        final(state).pending_approvals == old(state).pending_approvals,
        old(run).is_review_mode ==> leaves_review(
            final(actions)@[final(actions)@.len() - 2],
            old(run).sub_id@,
            review_output,
        ),
        under_way_after(false, told(old(actions)@), old(run).sub_id@) == Some(true)
            ==> under_way_after(false, told(final(actions)@), old(run).sub_id@) == Some(false),
        under_way_after(true, told(old(actions)@), old(run).sub_id@) == Some(true)
            ==> under_way_after(true, told(final(actions)@), old(run).sub_id@) == Some(false),
        final(state).plan_mode == old(state).plan_mode,
        final(state).history == old(state).history,
        final(state).current_task is Some ==> final(state).current_task == old(state).current_task
            && final(state).current_task->0.sub_id@ != old(run).sub_id@,
        final(state).current_task == task_left(old(state).current_task, old(run).sub_id@),
        *final(state) == (SessionState { current_task: final(state).current_task, ..*old(state) }),
{
    let ghost view0 = actions_view(actions@);
    if run.is_review_mode {
        tell(actions, run.sub_id.as_str(), EventMsg::ExitedReviewMode { review_output });
    }
    state.remove_task(run.sub_id.as_str());
    tell(
        actions,
        run.sub_id.as_str(),
        EventMsg::TaskComplete { last_agent_message: copy_opt_string(&run.last_agent_message) },
    );
    run.phase = TaskPhase::Finished;
    proof {
        assert(actions_view(actions@) =~= view0 + finish_view(
            old(run).sub_id@,
            old(run).is_review_mode,
            match review_output {
                Some(r) => Some(review_view(r)),
                None => None,
            },
            old(run).last_agent_message.deep_view(),
        ));
    }
}

/// Whether an action tells the client that the task of the submission
/// is complete, with the last message given.
pub open spec fn completes(action: TaskAction, sub_id: Seq<char>, last: Option<Seq<char>>) -> bool {
    action matches TaskAction::Emit(e) && (e.id@ == sub_id && (
    e.msg matches EventMsg::TaskComplete { last_agent_message } && last_agent_message.deep_view()
        == last))
}

/// Whether an action tells the client that the task of the submission
/// has left the mode in which code is checked, with the outcome given.
pub open spec fn leaves_review(
    action: TaskAction,
    sub_id: Seq<char>,
    outcome: Option<ReviewOutputEvent>,
) -> bool {
    action matches TaskAction::Emit(e) && (e.id@ == sub_id && (
    e.msg matches EventMsg::ExitedReviewMode { review_output } && review_output == outcome))
}

/// Whether an action tells the client that the turn of the submission
/// was aborted, for the reason given.
pub open spec fn aborts(action: TaskAction, sub_id: Seq<char>, reason: TurnAbortReason) -> bool {
    action matches TaskAction::Emit(e) && (e.id@ == sub_id && (e.msg matches EventMsg::TurnAborted {
        reason: why,
    } && why == reason))
}

/// Whether an action asks to read the outcome of a code check from
/// the message given.
pub open spec fn decodes(action: TaskAction, message: Seq<char>) -> bool {
    action matches TaskAction::DecodeReview { text, part } && (text@ == message
        && part.deep_view() == braced_part(message))
}

/// Whether an action tells the client of an error, in the words
/// given.
pub open spec fn reports_error(action: TaskAction, sub_id: Seq<char>, text: Seq<char>) -> bool {
    action matches TaskAction::Emit(e) && (e.id@ == sub_id && (e.msg matches EventMsg::Error {
        message,
    } && message@ == text))
}

/// Whether an action tells the client that the task of the submission
/// has started.
pub open spec fn announces(action: TaskAction, sub_id: Seq<char>, window: Option<u64>) -> bool {
    action matches TaskAction::Emit(e) && (e.id@ == sub_id && (
    e.msg matches EventMsg::TaskStarted { model_context_window } && model_context_window
        == window))
}

/// What the start of a task asks of the caller: to tell the client
/// that the task has started; to write the input to the record of the
/// session, unless the task checks code; and to run the first turn.
pub open spec fn start_view(
    sub_id: Seq<char>,
    input: Seq<InputItem>,
    window: Option<u64>,
    is_review_mode: bool,
    prompt: Seq<ResponseItemView>,
    history: Seq<ResponseItemView>,
    pending: Seq<ResponseItemView>,
) -> Seq<TaskActionView> {
    seq![TaskActionView::Emit { id: sub_id, event: TaskEventView::Started { window } }] + (
    if is_review_mode {
        next_turn_view(true, seq![user_item(input)], prompt, history, pending)
    } else {
        seq![TaskActionView::Persist(seq![user_item(input)])] + next_turn_view(
            false,
            Seq::empty(),
            prompt,
            history.push(user_item(input)),
            pending,
        )
    })
}

/// What the outcome of a turn asks of the caller (see
/// `on_turn_result`).
pub open spec fn turn_result_view(
    run: TaskRun,
    result: Result<TurnRunResult, String>,
    limit: Option<i64>,
    prompt: Seq<ResponseItemView>,
    history: Seq<ResponseItemView>,
    pending: Seq<ResponseItemView>,
) -> Seq<TaskActionView> {
    match result {
        Err(e) => seq![
            TaskActionView::Emit { id: run.sub_id@, event: TaskEventView::Error { message: e@ } },
        ] + finish_view(run.sub_id@, run.is_review_mode, None, None),
        Ok(turn) => {
            let items = turn_recorded(turn);
            let written = if run.is_review_mode {
                Seq::empty()
            } else {
                persist_part(items)
            };
            if turn_over(turn, limit) {
                if run.auto_compact_recently_attempted {
                    written + seq![
                        TaskActionView::Emit {
                            id: run.sub_id@,
                            event: TaskEventView::Error {
                                message: still_over_limit_text(
                                    turn.tokens_in_context_window,
                                    limit,
                                ),
                            },
                        },
                    ] + finish_view(run.sub_id@, run.is_review_mode, None, None)
                } else {
                    written + seq![TaskActionView::Compact]
                }
            } else if !turn_owed(turn) {
                written + seq![TaskActionView::Notify { last: turn_last(turn) }] + (
                if run.is_review_mode && turn_last(turn) is Some {
                    seq![
                        TaskActionView::DecodeReview {
                            text: turn_last(turn)->0,
                            part: braced_part(turn_last(turn)->0),
                        },
                    ]
                } else {
                    finish_view(run.sub_id@, run.is_review_mode, None, turn_last(turn))
                })
            } else {
                written + next_turn_view(
                    run.is_review_mode,
                    run.review_history.deep_view() + items,
                    prompt,
                    history + items,
                    pending,
                )
            }
        },
    }
}

/// Whether the task goes on with a turn after the outcome of one: the
/// turn did not fail, the conversation is within its limit, and the
/// model is owed an answer.
pub open spec fn goes_on(result: Result<TurnRunResult, String>, limit: Option<i64>) -> bool {
    result matches Ok(turn) && !turn_over(turn, limit) && turn_owed(turn)
}

/// The outcome of a code check as the last message of the task gives
/// it (see `parse_review_output_event`).
pub open spec fn decoded_review(
    text: Seq<char>,
    whole: Option<ReviewOutputEvent>,
    part: Option<ReviewOutputEvent>,
) -> (Seq<char>, Option<Seq<char>>) {
    match whole {
        Some(ev) => review_view(ev),
        None => match part {
            Some(ev) => if braced_part(text) is Some {
                review_view(ev)
            } else {
                (text, None)
            },
            None => (text, None),
        },
    }
}

/// Starts a task on an input of the user. On an empty input nothing
/// happens at all: no event, and the task is over. Else the client is
/// told that the task has started; the input joins the conversation
/// (that of the task itself where it checks code, else that of the
/// session, and its record); and the first turn is asked for.
pub fn start_task(
    state: &mut SessionState,
    sub_id: &str,
    input: Vec<InputItem>,
    model_context_window: Option<u64>,
    is_review_mode: bool,
) -> (r: (Vec<TaskAction>, TaskRun))
    ensures
        r.1.sub_id@ == sub_id@,
        r.1.is_review_mode == is_review_mode,
        r.1.wf(),
        under_way_after(false, told(r.0@), sub_id@) == Some(task_open(r.1.phase)),
        input@.len() == 0 ==> r.0@.len() == 0 && r.1.phase == TaskPhase::Finished && *final(state)
            == *old(state),
        input@.len() > 0 ==> actions_view(r.0@) == start_view(
            sub_id@,
            input@,
            model_context_window,
            is_review_mode,
            prompt_items(*old(state)),
            old(state).history.deep_view(),
            pending_items(old(state).pending_input@),
        ),
        input@.len() > 0 ==> r.1.review_history.deep_view() == (if is_review_mode {
            seq![user_item(input@)] + pending_items(old(state).pending_input@)
        } else {
            Seq::empty()
        }),
        input@.len() > 0 && !is_review_mode ==> final(state).history.deep_view() == old(
            state,
        ).history.deep_view().push(user_item(input@)) + pending_items(old(state).pending_input@),
        final(state).approved_commands == old(state).approved_commands,
        final(state).pending_approvals == old(state).pending_approvals,
        input@.len() > 0 ==> r.1.phase == TaskPhase::InTurn && r.0@.len() >= 2 && announces(
            r.0@[0],
            sub_id@,
            model_context_window,
        ) && asks_turn(r.0@.last()) && told(r.0@).len() == 1,
        input@.len() > 0 && is_review_mode ==> final(state).history == old(state).history,
        input@.len() > 0 && !is_review_mode ==> final(state).history.deep_view().len() == old(state).history.deep_view().len() + 1 + old(state).pending_input@.len()
            && final(state).history.deep_view()[old(state).history.deep_view().len() as int]
            == (ResponseItemView::Message {
            id: None,
            role: "user"@,
            content: input_content(input@, input@.len() as int),
        }),
        final(state).current_task == old(state).current_task,
        final(state).plan_mode == old(state).plan_mode,
        input@.len() > 0 ==> step_kept(*old(state), *final(state), sub_id@, r.1.phase),
{
    let mut actions: Vec<TaskAction> = Vec::new();
    let mut run = TaskRun {
        sub_id: String::from_str(sub_id),
        is_review_mode,
        review_history: Vec::new(),
        auto_compact_recently_attempted: false,
        last_agent_message: None,
        phase: TaskPhase::Finished,
    };
    if input.len() == 0 {
        return (actions, run);
    }
    proof {
        assert(run.review_history.deep_view() =~= Seq::<ResponseItemView>::empty());
        assert(actions_view(actions@) =~= Seq::<TaskActionView>::empty());
    }
    tell(&mut actions, sub_id, EventMsg::TaskStarted { model_context_window });
    let first = input_message(&input).to_item();
    proof {
        assert(first.deep_view() == user_item(input@));
    }
    if is_review_mode {
        run.review_history.push(first);
        proof {
            assert(run.review_history.deep_view() =~= seq![user_item(input@)]);
        }
    } else {
        let mut items: Vec<ResponseItem> = Vec::new();
        items.push(first);
        proof {
            assert(items.deep_view() =~= seq![items@[0].deep_view()]);
        }
        let ghost h0 = state.history.deep_view();
        state.history.record_items(&items);
        proof {
            assert(state.history.deep_view()[h0.len() as int] == items@[0].deep_view());
            assert(state.history.deep_view() =~= h0.push(user_item(input@)));
        }
        act(&mut actions, TaskAction::Persist(items));
    }
    let ghost a1 = actions@;
    let ghost h1 = state.history.deep_view();
    let ghost v1 = actions_view(actions@);
    proof {
        assert(prompt_items(*state) == prompt_items(*old(state)));
    }
    begin_turn(state, &mut run, &mut actions);
    proof {
        assert(actions@[0] == a1[0]);
        if !is_review_mode {
            assert(state.history.deep_view()[h1.len() - 1] == h1[h1.len() - 1]);
        }
        assert(actions_view(actions@) =~= start_view(
            sub_id@,
            input@,
            model_context_window,
            is_review_mode,
            prompt_items(*old(state)),
            old(state).history.deep_view(),
            pending_items(old(state).pending_input@),
        ));
    }
    (actions, run)
}

/// What goes into the conversation of what a turn brought.
pub open spec fn turn_recorded(turn: TurnRunResult) -> Seq<ResponseItemView> {
    recorded(turn.processed_items@, turn.processed_items@.len() as int)
}

/// Whether the conversation has outgrown its limit with a turn.
pub open spec fn turn_over(turn: TurnRunResult, limit: Option<i64>) -> bool {
    limit_reached(turn.tokens_in_context_window, limit)
}

/// Whether the model is owed an answer after a turn.
pub open spec fn turn_owed(turn: TurnRunResult) -> bool {
    answers(turn.processed_items@, turn.processed_items@.len() as int) > 0
}

/// The last text that the assistant put out in a turn.
pub open spec fn turn_last(turn: TurnRunResult) -> Option<Seq<char>> {
    last_assistant_message(turn_recorded(turn), turn_recorded(turn).len() as int)
}

/// Takes up what a turn came to. What the turn brought joins the
/// conversation. A turn that failed ends the task with an error. A
/// conversation that has outgrown its limit is summarised, once; if it
/// is still over the limit after the next turn, the task ends with an
/// error. Else the task goes on with the next turn while the model is
/// owed an answer, and ends where it is owed none: at once, or, for a
/// task that checks code and has a last message, after the outcome
/// was read from that message.
pub fn on_turn_result(
    state: &mut SessionState,
    run: TaskRun,
    result: Result<TurnRunResult, String>,
    limit: Option<i64>,
) -> (r: (Vec<TaskAction>, TaskRun))
    requires
        run.phase == TaskPhase::InTurn,
        run.wf(),
    ensures
        r.1.sub_id == run.sub_id,
        r.1.is_review_mode == run.is_review_mode,
        r.1.wf(),
        actions_view(r.0@) == turn_result_view(
            run,
            result,
            limit,
            prompt_items(*old(state)),
            old(state).history.deep_view(),
            pending_items(old(state).pending_input@),
        ),
        final(state).history.deep_view() == (if run.is_review_mode || result is Err {
            old(state).history.deep_view()
        } else {
            old(state).history.deep_view() + turn_recorded(result->Ok_0) + (if goes_on(
                result,
                limit,
            ) {
                pending_items(old(state).pending_input@)
            } else {
                Seq::empty()
            })
        }),
        r.1.review_history.deep_view() == (if !run.is_review_mode || result is Err {
            run.review_history.deep_view()
        } else {
            run.review_history.deep_view() + turn_recorded(result->Ok_0) + (if goes_on(
                result,
                limit,
            ) {
                pending_items(old(state).pending_input@)
            } else {
                Seq::empty()
            })
        }),
        final(state).approved_commands == old(state).approved_commands,
        final(state).pending_approvals == old(state).pending_approvals,
        final(state).plan_mode_prompt_recorded == old(state).plan_mode_prompt_recorded,
        under_way_after(true, told(r.0@), run.sub_id@) == Some(task_open(r.1.phase)),
        result matches Err(e) ==> r.1.phase == TaskPhase::Finished && r.0@.len() >= 2
            && reports_error(r.0@[0], run.sub_id@, e@) && completes(r.0@.last(), run.sub_id@, None),
        result is Ok && turn_over(result->Ok_0, limit) && run.auto_compact_recently_attempted
            ==> r.1.phase == TaskPhase::Finished && r.0@.len() >= 2 && completes(
            r.0@.last(),
            run.sub_id@,
            None,
        ) && reports_error(
            r.0@[r.0@.len() - (if run.is_review_mode {
                3int
            } else {
                2int
            })],
            run.sub_id@,
            still_over_limit_text(result->Ok_0.tokens_in_context_window, limit),
        ),
        result is Ok && turn_over(result->Ok_0, limit) && !run.auto_compact_recently_attempted
            ==> r.1.phase == TaskPhase::Compacting && r.1.auto_compact_recently_attempted
            && r.0@.len() >= 1 && r.0@.last() is Compact,
        result is Ok && !turn_over(result->Ok_0, limit) && turn_owed(result->Ok_0) ==> r.1.phase
            == TaskPhase::InTurn && !r.1.auto_compact_recently_attempted && r.0@.len() >= 1
            && asks_turn(r.0@.last()),
        result is Ok && !turn_over(result->Ok_0, limit) && !turn_owed(result->Ok_0)
            ==> r.1.last_agent_message.deep_view() == turn_last(result->Ok_0) && r.0@.len() >= 1,
        result is Ok && !turn_over(result->Ok_0, limit) && !turn_owed(result->Ok_0) && (
        run.is_review_mode && turn_last(result->Ok_0) is Some) ==> r.1.phase
            == TaskPhase::Reviewing && decodes(r.0@.last(), turn_last(result->Ok_0)->0),
        result is Ok && !turn_over(result->Ok_0, limit) && !turn_owed(result->Ok_0) && !(
        run.is_review_mode && turn_last(result->Ok_0) is Some) ==> r.1.phase
            == TaskPhase::Finished && completes(
            r.0@.last(),
            run.sub_id@,
            turn_last(result->Ok_0),
        ),
        result is Ok && !run.is_review_mode ==> (old(state).history.deep_view() + turn_recorded(
            result->Ok_0,
        )).is_prefix_of(final(state).history.deep_view()),
        run.is_review_mode ==> final(state).history == old(state).history,
        final(state).plan_mode == old(state).plan_mode,
        step_kept(*old(state), *final(state), run.sub_id@, r.1.phase),
{
    let mut actions: Vec<TaskAction> = Vec::new();
    let ghost run0 = run;
    let ghost expected = turn_result_view(
        run,
        result,
        limit,
        prompt_items(*old(state)),
        old(state).history.deep_view(),
        pending_items(old(state).pending_input@),
    );
    let mut run = run;
    proof {
        assert(actions_view(actions@) =~= Seq::<TaskActionView>::empty());
    }
    let turn = match result {
        Err(e) => {
            tell(&mut actions, run.sub_id.as_str(), EventMsg::Error { message: e });
            let ghost a1 = actions@;
            finish(state, &mut run, None, &mut actions);
            proof {
                assert(actions@[0] == a1[0]);
                assert(actions_view(actions@) =~= expected);
            }
            return (actions, run);
        },
        Ok(turn) => turn,
    };
    let over = token_limit_reached(turn.tokens_in_context_window, limit);
    let (items, owed) = sort_processed(&turn.processed_items);
    let ghost h0 = state.history.deep_view();
    let ghost r0 = run.review_history.deep_view();
    let ghost iv = items.deep_view();
    proof {
        assert(iv.len() == items@.len());
        assert(iv == turn_recorded(turn));
    }
    if items.len() > 0 {
        if run.is_review_mode {
            let mut more = copy_items(&items);
            run.review_history.append(&mut more);
            proof {
                assert(run.review_history.deep_view() =~= r0 + iv);
            }
        } else {
            state.history.record_items(&items);
            act(&mut actions, TaskAction::Persist(copy_items(&items)));
        }
    } else {
        proof {
            assert(h0 + items.deep_view() =~= h0);
            assert(r0 + iv =~= r0);
        }
    }
    let ghost written = if run.is_review_mode {
        Seq::<TaskActionView>::empty()
    } else {
        persist_part(iv)
    };
    proof {
        assert(actions_view(actions@) =~= written);
        assert(run.review_history.deep_view() == (if run.is_review_mode {
            r0 + iv
        } else {
            r0
        }));
        assert(state.history.deep_view() == (if run.is_review_mode {
            h0
        } else {
            h0 + iv
        }));
    }
    if over {
        if run.auto_compact_recently_attempted {
            let ghost k = actions@.len() as int;
            tell(
                &mut actions,
                run.sub_id.as_str(),
                EventMsg::Error {
                    message: still_over_limit_message(turn.tokens_in_context_window, limit),
                },
            );
            let ghost a1 = actions@;
            finish(state, &mut run, None, &mut actions);
            proof {
                assert(actions@[k] == a1[k]);
                assert(k == a1.len() - 1);
                assert(actions_view(actions@) =~= expected);
                assert(h0 + iv + Seq::<ResponseItemView>::empty() =~= h0 + iv);
                assert(r0 + iv + Seq::<ResponseItemView>::empty() =~= r0 + iv);
            }
            return (actions, run);
        }
        run.auto_compact_recently_attempted = true;
        act(&mut actions, TaskAction::Compact);
        run.phase = TaskPhase::Compacting;
        proof {
            assert(actions_view(actions@) =~= expected);
            assert(h0 + iv + Seq::<ResponseItemView>::empty() =~= h0 + iv);
            assert(r0 + iv + Seq::<ResponseItemView>::empty() =~= r0 + iv);
        }
        return (actions, run);
    }
    run.auto_compact_recently_attempted = false;
    if !owed {
        run.last_agent_message = get_last_assistant_message_from_turn(&items);
        act(
            &mut actions,
            TaskAction::Notify {
                last_assistant_message: copy_opt_string(&run.last_agent_message),
            },
        );
        let decode = match &run.last_agent_message {
            Some(text) => if run.is_review_mode {
                Some(
                    TaskAction::DecodeReview {
                        text: text.clone(),
                        part: review_json_slice(text.as_str()),
                    },
                )
            } else {
                None
            },
            None => None,
        };
        match decode {
            Some(action) => {
                act(&mut actions, action);
                run.phase = TaskPhase::Reviewing;
            },
            None => {
                finish(state, &mut run, None, &mut actions);
            },
        }
        proof {
            assert(run.last_agent_message.deep_view() == turn_last(turn));
            assert(actions_view(actions@) =~= expected);
            assert(h0 + iv + Seq::<ResponseItemView>::empty() =~= h0 + iv);
            assert(r0 + iv + Seq::<ResponseItemView>::empty() =~= r0 + iv);
        }
        return (actions, run);
    }
    proof {
        assert(h0 + items.deep_view() == state.history.deep_view() || run.is_review_mode);
        assert(prompt_items(*state) == prompt_items(*old(state)));
        assert(state.pending_input == old(state).pending_input);
    }
    begin_turn(state, &mut run, &mut actions);
    proof {
        assert(actions_view(actions@) =~= expected);
    }
    (actions, run)
}

/// Goes on after the conversation was summarised: with the next turn.
pub fn on_compact_done(state: &mut SessionState, run: TaskRun) -> (r: (Vec<TaskAction>, TaskRun))
    requires
        run.phase == TaskPhase::Compacting,
        run.wf(),
    ensures
        r.1.wf(),
        r.1.sub_id == run.sub_id,
        r.1.is_review_mode == run.is_review_mode,
        r.1.auto_compact_recently_attempted == run.auto_compact_recently_attempted,
        r.1.phase == TaskPhase::InTurn,
        under_way_after(true, told(r.0@), run.sub_id@) == Some(true),
        r.0@.len() >= 1,
        asks_turn(r.0@.last()),
        actions_view(r.0@) == next_turn_view(
            run.is_review_mode,
            run.review_history.deep_view(),
            prompt_items(*old(state)),
            old(state).history.deep_view(),
            pending_items(old(state).pending_input@),
        ),
        r.1.review_history.deep_view() == (if run.is_review_mode {
            run.review_history.deep_view() + pending_items(old(state).pending_input@)
        } else {
            run.review_history.deep_view()
        }),
        final(state).history.deep_view() == (if run.is_review_mode {
            old(state).history.deep_view()
        } else {
            old(state).history.deep_view() + pending_items(old(state).pending_input@)
        }),
        final(state).plan_mode == old(state).plan_mode,
        final(state).current_task == old(state).current_task,
        final(state).approved_commands == old(state).approved_commands,
        final(state).pending_approvals == old(state).pending_approvals,
        step_kept(*old(state), *final(state), run.sub_id@, r.1.phase),
{
    let mut actions: Vec<TaskAction> = Vec::new();
    let ghost run0 = run;
    let mut run = run;
    proof {
        assert(actions_view(actions@) =~= Seq::<TaskActionView>::empty());
    }
    begin_turn(state, &mut run, &mut actions);
    proof {
        assert(actions_view(actions@) =~= next_turn_view(
            run.is_review_mode,
            run0.review_history.deep_view(),
            prompt_items(*old(state)),
            old(state).history.deep_view(),
            pending_items(old(state).pending_input@),
        ));
    }
    (actions, run)
}

/// Ends a task that checked code, now that the outcome was read from
/// its last message (see `parse_review_output_event`).
pub fn on_review_decoded(
    state: &mut SessionState,
    run: TaskRun,
    whole: Option<ReviewOutputEvent>,
    part: Option<ReviewOutputEvent>,
) -> (r: (Vec<TaskAction>, TaskRun))
    requires
        run.phase == TaskPhase::Reviewing,
        run.wf(),
    ensures
        r.1.wf(),
        r.1.sub_id == run.sub_id,
        r.1.phase == TaskPhase::Finished,
        under_way_after(true, told(r.0@), run.sub_id@) == Some(false),
        r.0@.len() == 2,
        r.0@[0] matches TaskAction::Emit(e) && e.msg is ExitedReviewMode
            && e.msg->ExitedReviewMode_review_output is Some,
        completes(r.0@[1], run.sub_id@, run.last_agent_message.deep_view()),
        actions_view(r.0@) == finish_view(
            run.sub_id@,
            true,
            Some(decoded_review(run.last_agent_message->0@, whole, part)),
            run.last_agent_message.deep_view(),
        ),
        r.1.review_history == run.review_history,
        final(state).plan_mode == old(state).plan_mode,
        final(state).history == old(state).history,
        final(state).pending_input == old(state).pending_input,
        step_kept(*old(state), *final(state), run.sub_id@, r.1.phase),
{
    let mut actions: Vec<TaskAction> = Vec::new();
    let ghost run0 = run;
    let mut run = run;
    let outcome = match &run.last_agent_message {
        Some(text) => Some(parse_review_output_event(text.as_str(), whole, part)),
        None => None,
    };
    proof {
        assert(actions_view(actions@) =~= Seq::<TaskActionView>::empty());
    }
    finish(state, &mut run, outcome, &mut actions);
    proof {
        assert(actions_view(actions@) =~= finish_view(
            run0.sub_id@,
            true,
            Some(decoded_review(run0.last_agent_message->0@, whole, part)),
            run0.last_agent_message.deep_view(),
        ));
    }
    (actions, run)
}

/// Aborts a task. Of a task that is over nothing is told. Else the
/// client is told that the turn was aborted, and why; a task that
/// checks code leaves that mode first, without an outcome.
pub fn abort_run(run: TaskRun, reason: TurnAbortReason) -> (r: (Vec<TaskAction>, TaskRun))
    ensures
        r.1.wf(),
        r.1.sub_id == run.sub_id,
        r.1.phase == TaskPhase::Finished,
        under_way_after(task_open(run.phase), told(r.0@), run.sub_id@) == Some(false),
        r.1 == (TaskRun { phase: TaskPhase::Finished, ..run }),
        actions_view(r.0@) == (if run.phase == TaskPhase::Finished {
            Seq::empty()
        } else {
            (if run.is_review_mode {
                seq![
                    TaskActionView::Emit {
                        id: run.sub_id@,
                        event: TaskEventView::ExitedReview { outcome: None },
                    },
                ]
            } else {
                Seq::empty()
            }) + seq![
                TaskActionView::Emit { id: run.sub_id@, event: TaskEventView::Aborted { reason } },
            ]
        }),
        run.phase == TaskPhase::Finished ==> r.0@.len() == 0,
        run.phase != TaskPhase::Finished ==> r.0@.len() == (if run.is_review_mode {
            2int
        } else {
            1int
        }) && aborts(r.0@.last(), run.sub_id@, reason),
        run.phase != TaskPhase::Finished && run.is_review_mode ==> leaves_review(
            r.0@[0],
            run.sub_id@,
            None,
        ),
{
    let mut actions: Vec<TaskAction> = Vec::new();
    let mut run = run;
    match run.phase {
        TaskPhase::Finished => {},
        _ => {
            if run.is_review_mode {
                tell(
                    &mut actions,
                    run.sub_id.as_str(),
                    EventMsg::ExitedReviewMode { review_output: None },
                );
            }
            tell(&mut actions, run.sub_id.as_str(), EventMsg::TurnAborted { reason });
            run.phase = TaskPhase::Finished;
        },
    }
    (actions, run)
}

/// However a task goes, once it is over the client was told of each
/// start exactly one end: that the task is complete, or that its turn
/// was aborted.
pub proof fn lemma_finished_task_ends_once(run: TaskRun, events: Seq<Event>, i: int)
    requires
        under_way_after(false, events, run.sub_id@) == Some(task_open(run.phase)),
        run.phase == TaskPhase::Finished,
        0 <= i < events.len(),
        starts_task(events[i], run.sub_id@),
    ensures
        ends_once(events, run.sub_id@, i),
{
    lemma_started_task_ends_once(events, run.sub_id@, i);
}

} // verus!
