//! What a session does with each request of a client.

use crate::hooks::executor::HookExecutor;
use crate::hooks::inspect::{HookReloadResponse, HookValidationStatus, HookValidationSummary};
use crate::hooks::snapshot::{build_hook_registry_snapshot, HookListRequest};
use crate::lines::{join, joined, string_texts};
use crate::plan_mode::artifact::{summary_markdown, PlanArtifact};
use crate::plan_mode::config::PlanModeConfig;
use crate::plan_mode::session::{fresh_session, payload_of};
use crate::plan_mode::capability::ToolCapability;
use crate::protocol::events::{Event, EventMsg};
use crate::protocol::items::{ContentItem, ContentItemView, InputItem, ResponseItem, ResponseItemView};
use crate::protocol::ops::{Op, Submission};
use crate::protocol::{
    AskForApproval, ReviewDecision, SandboxPolicy, SubagentApprovalDecision, TurnAbortReason,
};
use crate::session::guidance::merge_guidance;
use crate::session::state::{
    attachment_refusal, attachments_accepted, input_content, input_item, rest_kept, same_context,
    waiting,
    AgentTask, AgentTaskKind, AttachmentFact, SessionState, TurnContext,
};
use crate::text::{push_str, string_of};
use vstd::prelude::*;

verus! {

/// What the caller is to do for a request.
#[derive(Debug)]
pub enum LoopAction {
    /// Tell the client.
    Emit(Event),
    /// Stop the task, and tell the client what `abort_run` says.
    Abort { task: AgentTask, reason: TurnAbortReason },
    /// Start the task on the input, in the context given. A task that
    /// checks code or summarises is marked as such.
    Spawn { task: AgentTask, input: Vec<InputItem>, context: TurnContext },
    /// Hand the answer to the command that waits for it.
    DeliverApproval { sub_id: String, decision: ReviewDecision },
    /// Hand the answer to the sub-agent call that waits for it.
    DeliverSubagentApproval { name: String, decision: SubagentApprovalDecision },
    /// Write the items to the record of the session.
    Persist(Vec<ResponseItem>),
    /// Note in the conversation and in the record that the
    /// environment of the turns has changed in what is given.
    RecordEnvironment {
        cwd: Option<String>,
        approval_policy: Option<AskForApproval>,
        sandbox_policy: Option<SandboxPolicy>,
    },
    /// Append the text to the history of messages.
    AppendHistory { text: String },
    /// Look an entry of the history of messages up, and tell the
    /// client.
    LookupHistory { offset: usize, log_id: u64 },
    /// Tell the client the tools of the MCP servers.
    ListMcpTools,
    /// Tell the client the prompts that the user has defined.
    ListCustomPrompts,
    /// Flush the record and tell the client where it is.
    ReportPath,
    /// Close the record; `on_rollout_closed` says what follows.
    CloseRollout,
}

/// What the first text of an input was resolved to as a slash
/// command.
#[derive(Debug, PartialEq, Eq)]
pub enum SlashResolution {
    /// The session has no slash commands, the input has no text, or
    /// the text is no command.
    NotCommand,
    /// The command stands for this text, to be answered by the model
    /// given, if any.
    Resolved { rendered_body: String, model: Option<String> },
    NotFound { name: String, suggestions: Vec<String> },
    Ambiguous { matches: Vec<String> },
    Interpolation(String),
}

/// The first text of an input, if it has one.
pub open spec fn first_text_of(items: Seq<InputItem>, from: int) -> Option<Seq<char>>
    decreases items.len() - from,
{
    if from < 0 || from >= items.len() {
        None
    } else {
        match items[from] {
            InputItem::Text { text } => Some(text@),
            _ => first_text_of(items, from + 1),
        }
    }
}

/// The text of an input that may be a slash command: its first text.
pub fn first_text(items: &Vec<InputItem>) -> (r: Option<String>)
    ensures
        r.deep_view() == first_text_of(items@, 0),
{
    let mut i: usize = 0;
    while i < items.len()
        invariant
            i <= items.len(),
            first_text_of(items@, 0) == first_text_of(items@, i as int),
        decreases items.len() - i,
    {
        match &items[i] {
            InputItem::Text { text } => {
                return Some(text.clone());
            },
            _ => {},
        }
        i += 1;
    }
    None
}

/// What an item of an input says, whatever string holds it.
pub open spec fn item_view(item: InputItem) -> (int, Seq<char>) {
    match item {
        InputItem::Text { text } => (0, text@),
        InputItem::Image { image_url } => (1, image_url@),
        InputItem::LocalImage { path } => (2, path@),
    }
}

/// What the items of an input say.
pub open spec fn items_view(items: Seq<InputItem>) -> Seq<(int, Seq<char>)> {
    items.map_values(|i: InputItem| item_view(i))
}

/// The content that the first `n` items of an input become, by what
/// the items say: texts and images, in order; a local image
/// contributes nothing.
pub open spec fn said_content(input: Seq<(int, Seq<char>)>, n: int) -> Seq<ContentItemView>
    decreases n,
{
    if n <= 0 {
        Seq::empty()
    } else if input[n - 1].0 == 0 {
        said_content(input, n - 1).push(ContentItemView::InputText { text: input[n - 1].1 })
    } else if input[n - 1].0 == 1 {
        said_content(input, n - 1).push(ContentItemView::InputImage { image_url: input[n - 1].1 })
    } else {
        said_content(input, n - 1)
    }
}

/// The message of the user that an input becomes, by what its items
/// say.
pub open spec fn said_message(input: Seq<(int, Seq<char>)>) -> ResponseItemView {
    ResponseItemView::Message {
        id: None,
        role: "user"@,
        content: said_content(input, input.len() as int),
    }
}

/// The message that an input becomes depends on what its items say
/// alone.
pub proof fn lemma_message_by_view(items: Seq<InputItem>, n: int)
    requires
        0 <= n <= items.len(),
    ensures
        input_content(items, n) == said_content(items_view(items), n),
        n == items.len() ==> input_item(items) == said_message(items_view(items)),
    decreases n,
{
    if n > 0 {
        lemma_message_by_view(items, n - 1);
    }
}

/// The first `n` items of an input with the text that a slash command
/// stands for in the place of its first text; `replaced` says whether
/// the place was found among them.
pub open spec fn rebuilt_upto(items: Seq<InputItem>, body: Seq<char>, n: int) -> (
    Seq<(int, Seq<char>)>,
    bool,
)
    decreases n,
{
    if n <= 0 {
        (Seq::empty(), false)
    } else {
        let before = rebuilt_upto(items, body, n - 1);
        if items[n - 1] is Text && !before.1 {
            (before.0.push((0, body)), true)
        } else {
            (before.0.push(item_view(items[n - 1])), before.1)
        }
    }
}

/// An input with the text that a slash command stands for in the
/// place of its first text, or in front of the input where it has no
/// text.
pub open spec fn rebuilt(items: Seq<InputItem>, body: Seq<char>) -> Seq<(int, Seq<char>)> {
    let all = rebuilt_upto(items, body, items.len() as int);
    if all.1 {
        all.0
    } else {
        seq![(0int, body)] + all.0
    }
}

/// Puts the text that a slash command stands for into the input.
pub fn rebuild_items(original: &Vec<InputItem>, rendered_body: &str) -> (r: Vec<InputItem>)
    ensures
        items_view(r@) == rebuilt(original@, rendered_body@),
{
    let mut out: Vec<InputItem> = Vec::new();
    let mut replaced = false;
    let mut i: usize = 0;
    proof {
        assert(items_view(out@) =~= rebuilt_upto(original@, rendered_body@, 0).0);
    }
    while i < original.len()
        invariant
            i <= original.len(),
            items_view(out@) == rebuilt_upto(original@, rendered_body@, i as int).0,
            replaced == rebuilt_upto(original@, rendered_body@, i as int).1,
        decreases original.len() - i,
    {
        let ghost before = items_view(out@);
        let next = match &original[i] {
            InputItem::Text { text } => {
                if replaced {
                    InputItem::Text { text: text.clone() }
                } else {
                    replaced = true;
                    InputItem::Text { text: String::from_str(rendered_body) }
                }
            },
            other => other.clone(),
        };
        out.push(next);
        proof {
            assert(items_view(out@) =~= before.push(item_view(next)));
        }
        i += 1;
    }
    if !replaced {
        let ghost rest = items_view(out@);
        out.insert(0, InputItem::Text { text: String::from_str(rendered_body) });
        proof {
            assert(items_view(out@) =~= seq![(0int, rendered_body@)] + rest);
        }
    }
    out
}

/// What the client is told of a slash command that cannot be run;
/// `None` where the input goes on as it is, or as the command says.
pub open spec fn slash_error_text(resolution: SlashResolution) -> Option<Seq<char>> {
    match resolution {
        SlashResolution::NotFound { name, suggestions } => Some(
            "Unknown slash command: /"@ + name@ + (if suggestions@.len() == 0 {
                Seq::empty()
            } else {
                ". Did you mean: "@ + joined(string_texts(suggestions@), ", "@)
            }),
        ),
        SlashResolution::Ambiguous { matches } => Some(
            "Slash command is ambiguous; try one of: "@ + joined(string_texts(matches@), ", "@),
        ),
        SlashResolution::Interpolation(message) => Some(message@),
        _ => None,
    }
}

/// Words what the client is told of a slash command that cannot be
/// run.
pub fn slash_error_message(resolution: &SlashResolution) -> (r: Option<String>)
    ensures
        r.deep_view() == slash_error_text(*resolution),
{
    match resolution {
        SlashResolution::NotFound { name, suggestions } => {
            let mut m: Vec<char> = Vec::new();
            push_str(&mut m, "Unknown slash command: /");
            push_str(&mut m, name.as_str());
            if suggestions.len() > 0 {
                push_str(&mut m, ". Did you mean: ");
                let listed = join(suggestions, ", ");
                push_str(&mut m, listed.as_str());
            }
            proof {
                if suggestions@.len() == 0 {
                    assert(m@ =~= "Unknown slash command: /"@ + name@ + Seq::<char>::empty());
                } else {
                    assert(m@ =~= "Unknown slash command: /"@ + name@ + (". Did you mean: "@
                        + joined(string_texts(suggestions@), ", "@)));
                }
            }
            Some(string_of(&m))
        },
        SlashResolution::Ambiguous { matches } => {
            let mut m: Vec<char> = Vec::new();
            push_str(&mut m, "Slash command is ambiguous; try one of: ");
            let listed = join(matches, ", ");
            push_str(&mut m, listed.as_str());
            Some(string_of(&m))
        },
        SlashResolution::Interpolation(message) => Some(message.clone()),
        _ => None,
    }
}

fn error_event(sub_id: &str, message: String) -> (r: LoopAction)
    ensures
        tells_error(r, sub_id@, message@),
{
    LoopAction::Emit(Event { id: String::from_str(sub_id), msg: EventMsg::Error { message } })
}

/// Whether an action tells the client of an error, in the words
/// given.
pub open spec fn tells_error(action: LoopAction, sub_id: Seq<char>, text: Seq<char>) -> bool {
    action matches LoopAction::Emit(e) && (e.id@ == sub_id && (e.msg matches EventMsg::Error {
        message,
    } && message@ == text))
}

/// Whether an action hands the answer given to the command that
/// waits under the submission.
pub open spec fn delivers(action: LoopAction, id: Seq<char>, decision: ReviewDecision) -> bool {
    action matches LoopAction::DeliverApproval { sub_id, decision: d } && (sub_id@ == id && d
        == decision)
}

/// Whether an action hands the answer given to the call of the
/// sub-agent that waits for it.
pub open spec fn delivers_to_subagent(
    action: LoopAction,
    name: Seq<char>,
    decision: SubagentApprovalDecision,
) -> bool {
    action matches LoopAction::DeliverSubagentApproval { name: n, decision: d } && (n@ == name && d
        == decision)
}

/// Whether an action notes a change of the environment in what is
/// given.
pub open spec fn notes_environment(
    action: LoopAction,
    cwd: Option<Seq<char>>,
    approval_policy: Option<AskForApproval>,
    sandbox_policy: Option<SandboxPolicy>,
) -> bool {
    action matches LoopAction::RecordEnvironment {
        cwd: c,
        approval_policy: a,
        sandbox_policy: s,
    } && (c.deep_view() == cwd && a == approval_policy && s == sandbox_policy)
}

/// Whether an action starts a task of the kind given for the
/// submission, on an input that says what is given.
pub open spec fn spawns(
    action: LoopAction,
    sub_id: Seq<char>,
    kind: AgentTaskKind,
    input: Seq<(int, Seq<char>)>,
) -> bool {
    action matches LoopAction::Spawn { task, input: i, .. } && (task.sub_id@ == sub_id && task.kind
        == kind && items_view(i@) == input)
}

/// Whether the actions start a task, after stopping, as replaced, the
/// task that was current before (`replaced`), if there was one.
pub open spec fn replaces_and_spawns(
    actions: Seq<LoopAction>,
    replaced: Option<AgentTask>,
    sub_id: Seq<char>,
    kind: AgentTaskKind,
    input: Seq<(int, Seq<char>)>,
) -> bool {
    match replaced {
        Some(old_task) => actions.len() == 2 && actions[0] == (LoopAction::Abort {
            task: old_task,
            reason: TurnAbortReason::Replaced,
        }) && spawns(actions[1], sub_id, kind, input),
        None => actions.len() == 1 && spawns(actions[0], sub_id, kind, input),
    }
}

/// Makes a task the current one of the session, and has it started.
/// The task that was current is stopped, as replaced.
fn spawn(
    state: &mut SessionState,
    sub_id: &str,
    kind: AgentTaskKind,
    input: Vec<InputItem>,
    context: TurnContext,
    actions: &mut Vec<LoopAction>,
)
    ensures
        final(state).current_task is Some,
        final(state).current_task->0.sub_id@ == sub_id@,
        final(state).current_task->0.kind == kind,
        final(state).plan_mode == old(state).plan_mode,
        final(state).history == old(state).history,
        final(state).pending_input == old(state).pending_input,
        final(state).pending_approvals == old(state).pending_approvals,
        *final(state) == (SessionState { current_task: final(state).current_task, ..*old(state) }),
        final(actions)@.len() >= old(actions)@.len(),
        final(actions)@.take(old(actions)@.len() as int) == old(actions)@,
        final(actions)@.last() is Spawn,
        final(actions)@.last()->Spawn_context == context,
        replaces_and_spawns(
            final(actions)@.skip(old(actions)@.len() as int),
            old(state).current_task,
            sub_id@,
            kind,
            items_view(input@),
        ),
{
    let ghost a0 = actions@;
    let task = AgentTask { sub_id: String::from_str(sub_id), kind };
    match state.set_task(task) {
        Some(old_task) => {
            actions.push(LoopAction::Abort { task: old_task, reason: TurnAbortReason::Replaced });
        },
        None => {},
    }
    actions.push(
        LoopAction::Spawn { task: AgentTask { sub_id: String::from_str(sub_id), kind }, input, context },
    );
    proof {
        assert(actions@.take(a0.len() as int) =~= a0);
        let tail = actions@.skip(a0.len() as int);
        assert(tail.len() == actions@.len() - a0.len());
        assert(tail[tail.len() - 1] == actions@[actions@.len() - 1]);
        assert(tail[0] == actions@[a0.len() as int]);
    }
}

/// What interrupting does to a session, and what the caller is to do
/// for it: the current task is stopped, as interrupted, and nothing
/// waits for an approval or as input any more.
pub open spec fn interrupted(
    before: SessionState,
    after: SessionState,
    r: Seq<LoopAction>,
) -> bool {
    &&& after.current_task is None
    &&& after.pending_approvals@.len() == 0
    &&& after.pending_input@.len() == 0
    &&& after.plan_mode == before.plan_mode
    &&& after.history == before.history
    &&& after == (SessionState {
        current_task: None,
        pending_approvals: after.pending_approvals,
        pending_input: after.pending_input,
        ..before
    })
    &&& match before.current_task {
        Some(task) => r == seq![
            LoopAction::Abort { task, reason: TurnAbortReason::Interrupted },
        ],
        None => r.len() == 0,
    }
}

/// Stops the current task, as interrupted: nothing waits for an
/// approval or as input any more.
pub fn on_interrupt(state: &mut SessionState) -> (r: Vec<LoopAction>)
    ensures
        interrupted(
            *old(state),
            *final(state),
            r@,
        ),
{
    let mut actions: Vec<LoopAction> = Vec::new();
    match state.interrupt_task() {
        Some(task) => {
            actions.push(LoopAction::Abort { task, reason: TurnAbortReason::Interrupted });
            proof {
                assert(actions@ =~= seq![
                    LoopAction::Abort { task, reason: TurnAbortReason::Interrupted },
                ]);
            }
        },
        None => {},
    }
    actions
}

/// What the answer to an approval request does: to abort is to
/// interrupt the task; any other answer is handed to the command
/// that waits for it under the submission, if one does, which waits
/// no longer.
pub open spec fn approval_answered(
    before: SessionState,
    after: SessionState,
    id: Seq<char>,
    decision: ReviewDecision,
    r: Seq<LoopAction>,
) -> bool {
    &&& decision == ReviewDecision::Abort ==> interrupted(before, after, r)
    &&& decision != ReviewDecision::Abort ==> after.current_task == before.current_task
        && !after.pending_approvals.deep_view().contains(id) && (forall|x: Seq<char>|
        x != id ==> (after.pending_approvals.deep_view().contains(x)
            <==> before.pending_approvals.deep_view().contains(x))) && after == (SessionState {
        pending_approvals: after.pending_approvals,
        ..before
    }) && (if before.pending_approvals.deep_view().contains(id) {
        r.len() == 1 && delivers(r[0], id, decision)
    } else {
        r.len() == 0
    })
}

/// Takes up the user's answer to an approval request. To abort is to
/// interrupt the task. Any other answer goes to the command that
/// waits for it under the submission, if one does.
pub fn on_approval_op(state: &mut SessionState, id: &str, decision: ReviewDecision) -> (r: Vec<
    LoopAction,
>)
    ensures
        approval_answered(
            *old(state),
            *final(state),
            id@,
            decision,
            r@,
        ),
{
    match decision {
        ReviewDecision::Abort => on_interrupt(state),
        other => {
            let mut actions: Vec<LoopAction> = Vec::new();
            let ghost task0 = state.current_task;
            match state.notify_approval(id, other) {
                Some(d) => {
                    actions.push(
                        LoopAction::DeliverApproval { sub_id: String::from_str(id), decision: d },
                    );
                },
                None => {},
            }
            actions
        },
    }
}

/// What the answer to the question whether a sub-agent may run does:
/// it is handed to the call that waits for it, if one does, which
/// waits no longer.
pub open spec fn subagent_approval_answered(
    before: SessionState,
    after: SessionState,
    name: Seq<char>,
    decision: SubagentApprovalDecision,
    r: Seq<LoopAction>,
) -> bool {
    &&& !after.pending_subagent_approvals.deep_view().contains(name)
    &&& forall|x: Seq<char>|
        x != name ==> (after.pending_subagent_approvals.deep_view().contains(x)
            <==> before.pending_subagent_approvals.deep_view().contains(x))
    &&& after == (SessionState {
        pending_subagent_approvals: after.pending_subagent_approvals,
        ..before
    })
    &&& if before.pending_subagent_approvals.deep_view().contains(name) {
        r.len() == 1 && delivers_to_subagent(r[0], name, decision)
    } else {
        r.len() == 0
    }
}

/// Takes up the user's answer to the question whether a sub-agent may
/// run: it goes to the call that waits for it, if one does.
pub fn on_subagent_approval_op(
    state: &mut SessionState,
    name: &str,
    decision: SubagentApprovalDecision,
) -> (r: Vec<LoopAction>)
    ensures
        subagent_approval_answered(
            *old(state),
            *final(state),
            name@,
            decision,
            r@,
        ),
{
    let mut actions: Vec<LoopAction> = Vec::new();
    match state.notify_subagent_approval(name, decision) {
        Some(d) => {
            actions.push(
                LoopAction::DeliverSubagentApproval { name: String::from_str(name), decision: d },
            );
        },
        None => {},
    }
    actions
}

/// The context of the turns to come with the model given in the place
/// of its own.
fn with_model(context: &TurnContext, model: Option<String>) -> (r: TurnContext)
    ensures
        r.cwd@ == context.cwd@,
        r.base_instructions.deep_view() == context.base_instructions.deep_view(),
        r.user_instructions.deep_view() == context.user_instructions.deep_view(),
        r.approval_policy == context.approval_policy,
        r.sandbox_policy == context.sandbox_policy,
        r.model@ == (match model {
            Some(m) => m@,
            None => context.model@,
        }),
        r.is_review_mode == context.is_review_mode,
        r.include_plan_tool == context.include_plan_tool,
        r.include_apply_patch_tool == context.include_apply_patch_tool,
{
    let mut next = context.clone();
    match model {
        Some(m) => {
            next.model = m;
        },
        None => {},
    }
    next
}

/// What an input of the user does: an error is told for a slash
/// command that cannot be run and for attachments that Plan Mode does
/// not accept; else the input waits for the task that is running, or
/// a task is started on it.
pub open spec fn input_taken(
    before: SessionState,
    after: SessionState,
    context: TurnContext,
    sub_id: Seq<char>,
    items: Vec<InputItem>,
    resolution: SlashResolution,
    facts: Vec<AttachmentFact>,
    r: Seq<LoopAction>,
) -> bool {
    &&& after.plan_mode == before.plan_mode
    &&& after.history == before.history
    &&& after == (SessionState {
        current_task: after.current_task,
        pending_input: after.pending_input,
        ..before
    })
    &&& slash_error_text(resolution) matches Some(text) ==> r.len() == 1 && tells_error(
        r[0],
        sub_id,
        text,
    ) && after == before
    &&& slash_error_text(resolution) is None ==> (match attachment_refusal(
        before,
        facts@,
        context.cwd@,
    ) {
        Some(text) => r.len() == 1 && tells_error(r[0], sub_id, text) && after
            == before,
        None => true,
    })
    &&& slash_error_text(resolution) is None && attachment_refusal(
        before,
        facts@,
        context.cwd@,
    ) is None ==> (match before.current_task {
        Some(task) => r.len() == 0 && after.current_task == before.current_task
            && waiting(after) == waiting(before).push(
            said_message(
                match resolution {
                    SlashResolution::Resolved { rendered_body, .. } => rebuilt(
                        items@,
                        rendered_body@,
                    ),
                    _ => items_view(items@),
                },
            ),
        ),
        None => after.pending_input == before.pending_input && replaces_and_spawns(
            r,
            None,
            sub_id,
            AgentTaskKind::Regular,
            match resolution {
                SlashResolution::Resolved { rendered_body, .. } => rebuilt(
                    items@,
                    rendered_body@,
                ),
                _ => items_view(items@),
            },
        ) && after.current_task is Some && after.current_task->0.sub_id@
            == sub_id && r[0]->Spawn_context.model@ == (match resolution {
            SlashResolution::Resolved { model: Some(m), .. } => m@,
            _ => context.model@,
        }),
    })
}

/// Takes up an input of the user. A slash command that cannot be run
/// is answered with an error, and so is an input with attachments
/// that Plan Mode does not accept (`facts` says of each local image
/// where it lies). Else the input, with the text of the command in it
/// where it was one, goes to the task that is running; or, where none
/// is, a task is started on it, with the model that the command names
/// where it names one.
pub fn on_user_input(
    state: &mut SessionState,
    context: &TurnContext,
    sub_id: &str,
    items: Vec<InputItem>,
    resolution: SlashResolution,
    facts: &Vec<AttachmentFact>,
) -> (r: Vec<LoopAction>)
    ensures
        input_taken(
            *old(state),
            *final(state),
            *context,
            sub_id@,
            items,
            resolution,
            *facts,
            r@,
        ),
{
    let mut actions: Vec<LoopAction> = Vec::new();
    match slash_error_message(&resolution) {
        Some(message) => {
            actions.push(error_event(sub_id, message));
            return actions;
        },
        None => {},
    }
    let (items, model) = match resolution {
        SlashResolution::Resolved { rendered_body, model } => (
            rebuild_items(&items, rendered_body.as_str()),
            model,
        ),
        _ => (items, None),
    };
    match state.validate_plan_mode_attachments(facts, context.cwd.as_str()) {
        Err(message) => {
            actions.push(error_event(sub_id, message));
            return actions;
        },
        Ok(_) => {},
    }
    proof {
        lemma_message_by_view(items@, items@.len() as int);
    }
    match state.inject_input(items) {
        Ok(_) => {},
        Err(items) => {
            let next = with_model(context, model);
            spawn(state, sub_id, AgentTaskKind::Regular, items, next, &mut actions);
            proof {
                assert(actions@.skip(0) =~= actions@);
            }
        },
    }
    actions
}

/// What a request changes of the context of the turns to come.
#[derive(Debug)]
pub struct ContextOverrides {
    pub cwd: Option<String>,
    pub approval_policy: Option<AskForApproval>,
    pub sandbox_policy: Option<SandboxPolicy>,
    pub model: Option<String>,
}

/// What a request to change the context of the turns to come does to
/// that context, and what is noted of it.
pub open spec fn context_overridden(
    context: TurnContext,
    next: TurnContext,
    overrides: ContextOverrides,
    guidance: Option<String>,
    r: Seq<LoopAction>,
) -> bool {
    &&& next.cwd@ == (match overrides.cwd {
        Some(c) => c@,
        None => context.cwd@,
    })
    &&& next.approval_policy == (match overrides.approval_policy {
        Some(p) => p,
        None => context.approval_policy,
    })
    &&& next.sandbox_policy == (match overrides.sandbox_policy {
        Some(p) => p,
        None => context.sandbox_policy,
    })
    &&& next.model@ == (match overrides.model {
        Some(m) => m@,
        None => context.model@,
    })
    &&& !next.is_review_mode
    &&& next.base_instructions == context.base_instructions
    &&& next.include_plan_tool == context.include_plan_tool
    &&& next.include_apply_patch_tool == context.include_apply_patch_tool
    &&& next.user_instructions.deep_view()
        == crate::session::guidance::merged_instructions(
        context.user_instructions.deep_view(),
        guidance.deep_view(),
    )
    &&& if overrides.cwd is Some || overrides.approval_policy is Some || overrides.sandbox_policy
        is Some {
        r.len() == 1 && notes_environment(
            r[0],
            overrides.cwd.deep_view(),
            overrides.approval_policy,
            overrides.sandbox_policy,
        )
    } else {
        r.len() == 0
    }
}

/// Changes the context of the turns to come in what the request
/// gives; the rest stays, but that the turns check no code. The
/// instructions of the user get the guidance for the sub-agents anew.
/// Where the directory, the approval policy or the sandbox is given,
/// that is noted in the conversation.
pub fn override_turn_context(
    context: &mut TurnContext,
    overrides: ContextOverrides,
    guidance: Option<String>,
) -> (r: Vec<LoopAction>)
    ensures
        context_overridden(
            *old(context),
            *final(context),
            overrides,
            guidance,
            r@,
        ),
{
    let mut actions: Vec<LoopAction> = Vec::new();
    let ContextOverrides { cwd, approval_policy, sandbox_policy, model } = overrides;
    let mut instructions: Option<String> = None;
    std::mem::swap(&mut instructions, &mut context.user_instructions);
    context.user_instructions = merge_guidance(instructions, guidance);
    match &cwd {
        Some(c) => {
            context.cwd = c.clone();
        },
        None => {},
    }
    match approval_policy {
        Some(p) => {
            context.approval_policy = p;
        },
        None => {},
    }
    match sandbox_policy {
        Some(p) => {
            context.sandbox_policy = p;
        },
        None => {},
    }
    match model {
        Some(m) => {
            context.model = m;
        },
        None => {},
    }
    context.is_review_mode = false;
    if cwd.is_some() || approval_policy.is_some() || sandbox_policy.is_some() {
        actions.push(LoopAction::RecordEnvironment { cwd, approval_policy, sandbox_policy });
    }
    actions
}

/// Whether a turn changes the environment: its directory, its
/// approval policy or its sandbox is another than before.
pub open spec fn environment_changed(
    before: TurnContext,
    cwd: Seq<char>,
    approval_policy: AskForApproval,
    sandbox_policy: SandboxPolicy,
) -> bool {
    before.cwd@ != cwd || before.approval_policy != approval_policy || before.sandbox_policy
        != sandbox_policy
}

/// What a turn of the user does: its input waits for the task that is
/// running, or its context becomes that of the turns to come and a
/// task is started on its input.
pub open spec fn turn_taken(
    before: SessionState,
    after: SessionState,
    context: TurnContext,
    next: TurnContext,
    sub_id: Seq<char>,
    items: Vec<InputItem>,
    cwd: String,
    approval_policy: AskForApproval,
    sandbox_policy: SandboxPolicy,
    model: String,
    guidance: Option<String>,
    r: Seq<LoopAction>,
) -> bool {
    &&& after.plan_mode == before.plan_mode
    &&& after.history == before.history
    &&& after == (SessionState {
        current_task: after.current_task,
        pending_input: after.pending_input,
        ..before
    })
    &&& match before.current_task {
        Some(task) => r.len() == 0 && next == context && after.current_task == before.current_task && waiting(after) == waiting(before).push(said_message(items_view(items@))),
        None => {
            let changed = environment_changed(
                context,
                cwd@,
                approval_policy,
                sandbox_policy,
            );
            &&& next.cwd == cwd
            &&& next.approval_policy == approval_policy
            &&& next.sandbox_policy == sandbox_policy
            &&& next.model == model
            &&& !next.is_review_mode
            &&& next.base_instructions == context.base_instructions
            &&& next.include_plan_tool == context.include_plan_tool
            &&& next.include_apply_patch_tool == context.include_apply_patch_tool
            &&& next.user_instructions.deep_view()
                == crate::session::guidance::merged_instructions(
                context.user_instructions.deep_view(),
                guidance.deep_view(),
            )
            &&& after.current_task is Some
            &&& after.current_task->0.sub_id@ == sub_id
            &&& after.pending_input == before.pending_input
            &&& r.len() == (if changed {
                2int
            } else {
                1int
            })
            &&& changed ==> notes_environment(
                r[0],
                Some(cwd@),
                Some(approval_policy),
                Some(sandbox_policy),
            )
            &&& spawns(r.last(), sub_id, AgentTaskKind::Regular, items_view(items@))
            &&& same_context(r.last()->Spawn_context, next)
        },
    }
}

/// Takes up a turn of the user: an input with a context of its own.
/// The input goes to the task that is running, and the context is
/// dropped; or, where none is, the context becomes that of the turns
/// to come (a change of the environment is noted in the conversation)
/// and a task is started on the input.
pub fn on_user_turn(
    state: &mut SessionState,
    context: &mut TurnContext,
    sub_id: &str,
    items: Vec<InputItem>,
    cwd: String,
    approval_policy: AskForApproval,
    sandbox_policy: SandboxPolicy,
    model: String,
    guidance: Option<String>,
) -> (r: Vec<LoopAction>)
    ensures
        turn_taken(
            *old(state),
            *final(state),
            *old(context),
            *final(context),
            sub_id@,
            items,
            cwd,
            approval_policy,
            sandbox_policy,
            model,
            guidance,
            r@,
        ),
{
    let mut actions: Vec<LoopAction> = Vec::new();
    proof {
        lemma_message_by_view(items@, items@.len() as int);
    }
    match state.inject_input(items) {
        Ok(_) => {},
        Err(items) => {
            let changed = !crate::text::same_text(context.cwd.as_str(), cwd.as_str())
                || !same_approval(context.approval_policy, approval_policy) || !same_sandbox(
                context.sandbox_policy,
                sandbox_policy,
            );
            let mut instructions: Option<String> = None;
            std::mem::swap(&mut instructions, &mut context.user_instructions);
            context.user_instructions = merge_guidance(instructions, guidance);
            if changed {
                actions.push(
                    LoopAction::RecordEnvironment {
                        cwd: Some(cwd.clone()),
                        approval_policy: Some(approval_policy),
                        sandbox_policy: Some(sandbox_policy),
                    },
                );
            }
            context.cwd = cwd;
            context.approval_policy = approval_policy;
            context.sandbox_policy = sandbox_policy;
            context.model = model;
            context.is_review_mode = false;
            let ghost a1 = actions@;
            spawn(state, sub_id, AgentTaskKind::Regular, items, context.clone(), &mut actions);
            proof {
                let tail = actions@.skip(a1.len() as int);
                assert(tail.last() == actions@.last());
                if changed {
                    assert(actions@.take(a1.len() as int)[0] == actions@[0]);
                }
            }
        },
    }
    actions
}

fn same_approval(a: AskForApproval, b: AskForApproval) -> (r: bool)
    ensures
        r == (a == b),
{
    match (a, b) {
        (AskForApproval::UnlessTrusted, AskForApproval::UnlessTrusted) => true,
        (AskForApproval::OnFailure, AskForApproval::OnFailure) => true,
        (AskForApproval::OnRequest, AskForApproval::OnRequest) => true,
        (AskForApproval::Never, AskForApproval::Never) => true,
        _ => false,
    }
}

fn same_sandbox(a: SandboxPolicy, b: SandboxPolicy) -> (r: bool)
    ensures
        r == (a == b),
{
    match (a, b) {
        (SandboxPolicy::DangerFullAccess, SandboxPolicy::DangerFullAccess) => true,
        (SandboxPolicy::ReadOnly, SandboxPolicy::ReadOnly) => true,
        (
            SandboxPolicy::WorkspaceWrite { network_access: x },
            SandboxPolicy::WorkspaceWrite { network_access: y },
        ) => x == y,
        _ => false,
    }
}

/// Whether an action tells the client, for the submission, a message
/// of the kind given (see `kind_of`).
pub open spec fn tells(action: LoopAction, sub_id: Seq<char>, kind: int) -> bool {
    action matches LoopAction::Emit(e) && (e.id@ == sub_id && kind_of(e.msg) == kind)
}

/// The kind of a message that answers a request: 1 that Plan Mode is
/// on, 2 that it is off, 3 that the plan is applied, 4 a message of
/// the agent, 5 the hooks, 6 the log of the hooks, 7 the check of the
/// hooks, 8 the reloading of the hooks, 9 that the session is shut
/// down, 10 that a check of code began, 11 an error; 0 any other.
pub open spec fn kind_of(msg: EventMsg) -> int {
    match msg {
        EventMsg::PlanModeActivated { .. } => 1,
        EventMsg::PlanModeExited { .. } => 2,
        EventMsg::PlanModeApplied { .. } => 3,
        EventMsg::AgentMessage { .. } => 4,
        EventMsg::HookListResponse { .. } => 5,
        EventMsg::HookExecLogResponse { .. } => 6,
        EventMsg::HookValidationResult { .. } => 7,
        EventMsg::HookReloadResult { .. } => 8,
        EventMsg::ShutdownComplete => 9,
        EventMsg::EnteredReviewMode { .. } => 10,
        EventMsg::Error { .. } => 11,
        _ => 0,
    }
}

fn emit(sub_id: &str, msg: EventMsg) -> (r: LoopAction)
    ensures
        r matches LoopAction::Emit(e) && e.id@ == sub_id@ && e.msg == msg,
{
    LoopAction::Emit(Event { id: String::from_str(sub_id), msg })
}

/// What the request to enter Plan Mode does to the session and to the
/// context of the turns to come, and what the client is told.
pub open spec fn plan_mode_entered(
    before: SessionState,
    after: SessionState,
    context: TurnContext,
    next: TurnContext,
    sub_id: Seq<char>,
    session_id: uuid::Uuid,
    capabilities: Vec<ToolCapability>,
    config: PlanModeConfig,
    r: Seq<LoopAction>,
) -> bool {
    &&& r.len() == 1
    &&& after.current_task == before.current_task
    &&& after.history == before.history
    &&& next.approval_policy == context.approval_policy
    &&& next.cwd == context.cwd
    &&& next.model == context.model
    &&& match before.plan_mode {
        Some(_) => tells_error(r[0], sub_id, "Plan Mode is already active"@) && after
            == before && next == context,
        None => tells(r[0], sub_id, 1) && after.plan_mode is Some && after.plan_mode->0.entered_from == context.approval_policy && after.plan_mode_prompt_recorded && next.include_plan_tool && !next.include_apply_patch_tool && rest_kept(before, after)
            && after.plan_mode->0.deep_view() == fresh_session(
            session_id,
            context.approval_policy,
            capabilities@,
            config.allowed_read_only_tools.deep_view(),
            context.sandbox_policy.full_network(),
            after.plan_mode->0.entered_at,
        ) && r[0]->Emit_0.msg->PlanModeActivated_session.deep_view() == payload_of(
            after.plan_mode->0.deep_view(),
        ) && next == (TurnContext {
            include_plan_tool: true,
            include_apply_patch_tool: false,
            ..context
        }),
    }
}

/// Enters Plan Mode. Where it is on already the client is told of the
/// error and nothing changes. Else Plan Mode is on, from the approval
/// policy of the turns; the client is told; the turns to come have
/// the plan tool and not the patch tool; and the Plan Mode prompt is
/// to be sent.
pub fn on_enter_plan_mode(
    state: &mut SessionState,
    context: &mut TurnContext,
    sub_id: &str,
    session_id: uuid::Uuid,
    capabilities: Vec<ToolCapability>,
    config: &PlanModeConfig,
) -> (r: Vec<LoopAction>)
    ensures
        plan_mode_entered(
            *old(state),
            *final(state),
            *old(context),
            *final(context),
            sub_id@,
            session_id,
            capabilities,
            *config,
            r@,
        ),
{
    let mut actions: Vec<LoopAction> = Vec::new();
    let network_enabled = context.sandbox_policy.has_full_network_access();
    match state.try_enter_plan_mode(
        session_id,
        context.approval_policy,
        capabilities,
        config,
        network_enabled,
    ) {
        Ok(pair) => {
            let (session, _telemetry) = pair;
            actions.push(emit(sub_id, EventMsg::PlanModeActivated { session }));
            context.include_plan_tool = true;
            context.include_apply_patch_tool = false;
            state.ensure_plan_mode_prompt_recorded();
        },
        Err(message) => {
            actions.push(error_event(sub_id, message));
        },
    }
    actions
}

/// What the request to leave Plan Mode does to the session and to the
/// context of the turns to come, and what the client is told.
pub open spec fn plan_mode_left(
    before: SessionState,
    after: SessionState,
    context: TurnContext,
    next: TurnContext,
    sub_id: Seq<char>,
    include_plan_tool: bool,
    include_apply_patch_tool: bool,
    r: Seq<LoopAction>,
) -> bool {
    &&& r.len() == 1
    &&& after.current_task == before.current_task
    &&& after.history == before.history
    &&& next.cwd == context.cwd
    &&& next.model == context.model
    &&& match before.plan_mode {
        None => tells_error(r[0], sub_id, "Plan Mode is not active"@) && after == before && next == context,
        Some(session) => tells(r[0], sub_id, 2) && r[0]->Emit_0.msg->PlanModeExited_previous_mode
            == session.entered_from && after.plan_mode is None && next.approval_policy == session.entered_from && next.include_plan_tool
            == include_plan_tool && next.include_apply_patch_tool
            == include_apply_patch_tool && rest_kept(before, after)
            && !after.plan_mode_prompt_recorded && next == (TurnContext {
            approval_policy: session.entered_from,
            include_plan_tool,
            include_apply_patch_tool,
            ..context
        }),
    }
}

/// Leaves Plan Mode. Where it is off the client is told of the error
/// and nothing changes. Else Plan Mode is off; the client is told;
/// and the turns to come have the approval policy from which Plan
/// Mode was entered, and the tools that the settings give them.
pub fn on_exit_plan_mode(
    state: &mut SessionState,
    context: &mut TurnContext,
    sub_id: &str,
    include_plan_tool: bool,
    include_apply_patch_tool: bool,
) -> (r: Vec<LoopAction>)
    ensures
        plan_mode_left(
            *old(state),
            *final(state),
            *old(context),
            *final(context),
            sub_id@,
            include_plan_tool,
            include_apply_patch_tool,
            r@,
        ),
{
    let mut actions: Vec<LoopAction> = Vec::new();
    match state.try_exit_plan_mode() {
        Ok(pair) => {
            let (previous_mode, _telemetry) = pair;
            actions.push(emit(sub_id, EventMsg::PlanModeExited { previous_mode }));
            context.approval_policy = previous_mode;
            context.include_plan_tool = include_plan_tool;
            context.include_apply_patch_tool = include_apply_patch_tool;
        },
        Err(message) => {
            actions.push(error_event(sub_id, message));
        },
    }
    actions
}

/// The message of the system that holds the summary of a plan.
pub open spec fn summary_item(summary: Seq<char>) -> ResponseItemView {
    ResponseItemView::Message {
        id: None,
        role: "system"@,
        content: seq![ContentItemView::InputText { text: summary }],
    }
}

/// Notes the summary of a plan in the conversation and tells the
/// client, unless the summary is empty.
pub fn record_plan_summary(state: &mut SessionState, sub_id: &str, artifact: &PlanArtifact) -> (r:
    Vec<LoopAction>)
    ensures
        final(state).current_task == old(state).current_task,
        final(state).plan_mode == old(state).plan_mode,
        final(state).plan_mode_prompt_recorded == old(state).plan_mode_prompt_recorded,
        final(state).next_internal_sub_id == old(state).next_internal_sub_id,
        final(state).approved_commands == old(state).approved_commands,
        final(state).pending_approvals == old(state).pending_approvals,
        final(state).pending_subagent_approvals == old(state).pending_subagent_approvals,
        final(state).pending_input == old(state).pending_input,
        if summary_markdown(artifact.deep_view()).len() == 0 {
            r@.len() == 0 && final(state).history == old(state).history
        } else {
            r@.len() == 2 && (r@[0] matches LoopAction::Persist(items) && items.deep_view()
                == seq![summary_item(summary_markdown(artifact.deep_view()))]) && tells(
                r@[1],
                sub_id@,
                4,
            )
                && r@[1]->Emit_0.msg->AgentMessage_message@ == summary_markdown(
                artifact.deep_view(),
            ) && final(state).history.deep_view() == old(state).history.deep_view().push(
                summary_item(summary_markdown(artifact.deep_view())),
            )
        },
{
    let mut actions: Vec<LoopAction> = Vec::new();
    let summary = artifact.to_summary_markdown();
    if summary.as_str().is_empty() {
        return actions;
    }
    let mut content: Vec<ContentItem> = Vec::new();
    content.push(ContentItem::InputText { text: summary.clone() });
    let mut items: Vec<ResponseItem> = Vec::new();
    items.push(ResponseItem::Message { id: None, role: String::from_str("system"), content });
    let ghost h0 = state.history.deep_view();
    proof {
        assert(content.deep_view() =~= seq![ContentItemView::InputText { text: summary@ }]);
        assert(items.deep_view() =~= seq![summary_item(summary@)]);
    }
    state.history.record_items(&items);
    proof {
        assert(state.history.deep_view() =~= h0.push(summary_item(summary@)));
    }
    actions.push(LoopAction::Persist(items));
    actions.push(emit(sub_id, EventMsg::AgentMessage { message: summary }));
    actions
}

/// The text that sets a session to work on a plan that was approved.
pub open spec fn implementation_trigger() -> Seq<char> {
    "(auto) Plan approved. Begin implementing the approved plan now by following the recorded steps, executing safe commands, and reporting progress as you go."@
}

/// What the request to apply the plan does to the session, to its
/// conversation and to the context of the turns to come, and what
/// the caller is to do for it.
pub open spec fn plan_applied(
    before: SessionState,
    after: SessionState,
    context: TurnContext,
    next: TurnContext,
    sub_id: Seq<char>,
    target_mode: Option<AskForApproval>,
    include_plan_tool: bool,
    include_apply_patch_tool: bool,
    r: Seq<LoopAction>,
) -> bool {
    &&& next.cwd == context.cwd
    &&& next.model == context.model
    &&& match before.plan_mode {
        None => r.len() == 1 && tells_error(r[0], sub_id, "Plan Mode is not active"@)
            && after == before && next == context,
        Some(session) => {
            let mode = match target_mode {
                Some(m) => m,
                None => session.entered_from,
            };
            let summary = summary_markdown(session.deep_view().plan_artifact);
            let noted = if summary.len() == 0 {
                0int
            } else {
                2int
            };
            &&& r.len() >= 2 + noted
            &&& after.history.deep_view() == (if noted == 0 {
                before.history.deep_view()
            } else {
                before.history.deep_view().push(summary_item(summary))
            })
            &&& noted == 2 ==> (r[1] matches LoopAction::Persist(items) && items.deep_view()
                == seq![summary_item(summary)]) && tells(r[2], sub_id, 4)
                && r[2]->Emit_0.msg->AgentMessage_message@ == summary
            &&& replaces_and_spawns(
                r.skip(1 + noted),
                before.current_task,
                "plan-implementation"@ + "-"@ + crate::numfmt::decimal(
                    before.next_internal_sub_id as nat,
                ),
                AgentTaskKind::Regular,
                seq![(0int, implementation_trigger())],
            )
            &&& same_context(r.last()->Spawn_context, next)
            &&& next.base_instructions == context.base_instructions
            &&& next.user_instructions == context.user_instructions
            &&& next.sandbox_policy == context.sandbox_policy
            &&& next == (TurnContext {
                approval_policy: mode,
                include_plan_tool,
                include_apply_patch_tool,
                ..context
            })
            &&& next.is_review_mode == context.is_review_mode
            &&& after.pending_input == before.pending_input
            &&& after.pending_approvals == before.pending_approvals
            &&& after.approved_commands == before.approved_commands
            &&& tells(r[0], sub_id, 3)
            &&& r[0]->Emit_0.msg->PlanModeApplied_target_mode == mode
            &&& r[0]->Emit_0.msg->PlanModeApplied_plan_entries
                == session.deep_view().plan_artifact.steps.len()
            &&& after.plan_mode is None
            &&& next.approval_policy == mode
            &&& next.include_plan_tool == include_plan_tool
            &&& next.include_apply_patch_tool == include_apply_patch_tool
            &&& after.current_task is Some
            &&& after.current_task->0.sub_id@ == "plan-implementation"@ + "-"@
                + crate::numfmt::decimal(before.next_internal_sub_id as nat)
            &&& spawns(
                r.last(),
                after.current_task->0.sub_id@,
                AgentTaskKind::Regular,
                seq![(0int, implementation_trigger())],
            )
        },
    }
}

/// Applies the plan. Where Plan Mode is off the client is told of the
/// error and nothing changes. Else Plan Mode ends; the client is told
/// with which approval policy the session goes on (the one asked for,
/// else the one from which Plan Mode was entered) and how many
/// entries the plan has; the summary of the plan is noted; the turns
/// to come have that policy and the tools that the settings give
/// them; and a task of the session's own is started that sets the
/// model to work on the plan.
pub fn on_apply_plan_mode(
    state: &mut SessionState,
    context: &mut TurnContext,
    sub_id: &str,
    target_mode: Option<AskForApproval>,
    include_plan_tool: bool,
    include_apply_patch_tool: bool,
) -> (r: Vec<LoopAction>)
    ensures
        plan_applied(
            *old(state),
            *final(state),
            *old(context),
            *final(context),
            sub_id@,
            target_mode,
            include_plan_tool,
            include_apply_patch_tool,
            r@,
        ),
{
    let mut actions: Vec<LoopAction> = Vec::new();
    match state.try_apply_plan_mode(target_mode) {
        Ok(applied) => {
            let (mode, plan_entries, artifact, _telemetry) = applied;
            actions.push(emit(sub_id, EventMsg::PlanModeApplied { target_mode: mode, plan_entries }));
            let mut noted = record_plan_summary(state, sub_id, &artifact);
            let ghost a0 = actions@;
            let ghost n0 = noted@;
            actions.append(&mut noted);
            proof {
                assert(actions@[0] == a0[0]);
                assert(actions@ =~= a0 + n0);
            }
            context.approval_policy = mode;
            context.include_plan_tool = include_plan_tool;
            context.include_apply_patch_tool = include_apply_patch_tool;
            let follow_up = state.next_internal_sub_id_with_prefix("plan-implementation");
            let mut input: Vec<InputItem> = Vec::new();
            input.push(
                InputItem::Text { text: crate::session::state::plan_implementation_trigger_text() },
            );
            proof {
                assert(items_view(input@) =~= seq![(0int, implementation_trigger())]);
            }
            let ghost a1 = actions@;
            spawn(
                state,
                follow_up.as_str(),
                AgentTaskKind::Regular,
                input,
                context.clone(),
                &mut actions,
            );
            proof {
                let tail = actions@.skip(a1.len() as int);
                assert(tail.last() == actions@.last());
                assert(actions@.take(a1.len() as int)[0] == actions@[0]);
                if a1.len() == 3 {
                    assert(actions@.take(a1.len() as int)[1] == actions@[1]);
                    assert(actions@.take(a1.len() as int)[2] == actions@[2]);
                }
            }
        },
        Err(message) => {
            actions.push(error_event(sub_id, message));
        },
    }
    actions
}

/// What the request to summarise the conversation does: the text that
/// asks for the summary waits for the task that is running, or a
/// task that summarises is started on it.
pub open spec fn compaction_asked(
    before: SessionState,
    after: SessionState,
    context: TurnContext,
    sub_id: Seq<char>,
    trigger: Seq<char>,
    r: Seq<LoopAction>,
) -> bool {
    &&& after.plan_mode == before.plan_mode
    &&& after.history == before.history
    &&& after == (SessionState {
        current_task: after.current_task,
        pending_input: after.pending_input,
        ..before
    })
    &&& match before.current_task {
        Some(task) => r.len() == 0 && after.current_task == before.current_task
            && waiting(after) == waiting(before).push(
            said_message(seq![(0int, trigger)]),
        ),
        None => after.pending_input == before.pending_input && r.len() == 1
            && same_context(r[0]->Spawn_context, context) && spawns(
            r[0],
            sub_id,
            AgentTaskKind::Compact,
            seq![(0int, trigger)],
        ) && after.current_task is Some && after.current_task->0.kind
            == AgentTaskKind::Compact,
    }
}

/// Takes up the request to summarise the conversation: the text that
/// asks for the summary goes to the task that is running; where none
/// is, a task that summarises is started on it.
pub fn on_compact(state: &mut SessionState, context: &TurnContext, sub_id: &str, trigger: &str) -> (r:
    Vec<LoopAction>)
    ensures
        compaction_asked(
            *old(state),
            *final(state),
            *context,
            sub_id@,
            trigger@,
            r@,
        ),
{
    let mut actions: Vec<LoopAction> = Vec::new();
    let mut input: Vec<InputItem> = Vec::new();
    input.push(InputItem::Text { text: String::from_str(trigger) });
    proof {
        assert(items_view(input@) =~= seq![(0int, trigger@)]);
        lemma_message_by_view(input@, input@.len() as int);
    }
    match state.inject_input(input) {
        Ok(_) => {},
        Err(items) => {
            spawn(state, sub_id, AgentTaskKind::Compact, items, context.clone(), &mut actions);
            proof {
                assert(actions@.skip(0) =~= actions@);
            }
        },
    }
    actions
}

/// What the request to check code does: a task of its own is started
/// on the prompt, in a context made for checking, and the client is
/// told that the check began.
pub open spec fn review_begun(
    before: SessionState,
    after: SessionState,
    context: TurnContext,
    sub_id: Seq<char>,
    prompt: String,
    review_instructions: Seq<char>,
    review_model: Seq<char>,
    r: Seq<LoopAction>,
) -> bool {
    &&& after.plan_mode == before.plan_mode
    &&& after.history == before.history
    &&& after == (SessionState {
        current_task: after.current_task,
        ..before
    })
    &&& after.current_task is Some
    &&& after.current_task->0.sub_id@ == sub_id
    &&& after.current_task->0.kind == AgentTaskKind::Review
    &&& r.len() >= 2
    &&& replaces_and_spawns(
        r.drop_last(),
        before.current_task,
        sub_id,
        AgentTaskKind::Review,
        seq![(0int, prompt@)],
    )
    &&& tells(r.last(), sub_id, 10)
    &&& r.last()->Emit_0.msg->EnteredReviewMode_prompt@ == prompt@
    &&& ({
        let c = r[r.len() - 2]->Spawn_context;
        &&& c.is_review_mode
        &&& c.user_instructions is None
        &&& c.base_instructions.deep_view() == Some(review_instructions)
        &&& c.model@ == review_model
        &&& !c.include_plan_tool
        &&& c.include_apply_patch_tool == context.include_apply_patch_tool
        &&& c.approval_policy == context.approval_policy
        &&& c.sandbox_policy == context.sandbox_policy
        &&& c.cwd@ == context.cwd@
    })
}

/// Starts a check of code: a task of its own, on the prompt of the
/// request, in a context that has the instructions for checking in
/// the place of the base instructions, no instructions of the user,
/// and no plan tool. The task that was current is stopped, as
/// replaced; and the client is told that the check began.
pub fn on_review(
    state: &mut SessionState,
    context: &TurnContext,
    sub_id: &str,
    prompt: String,
    review_instructions: &str,
    review_model: &str,
) -> (r: Vec<LoopAction>)
    ensures
        review_begun(
            *old(state),
            *final(state),
            *context,
            sub_id@,
            prompt,
            review_instructions@,
            review_model@,
            r@,
        ),
{
    let mut actions: Vec<LoopAction> = Vec::new();
    let review_context = TurnContext {
        cwd: context.cwd.clone(),
        base_instructions: Some(String::from_str(review_instructions)),
        user_instructions: None,
        approval_policy: context.approval_policy,
        sandbox_policy: context.sandbox_policy,
        model: String::from_str(review_model),
        is_review_mode: true,
        include_plan_tool: false,
        include_apply_patch_tool: context.include_apply_patch_tool,
    };
    let mut input: Vec<InputItem> = Vec::new();
    input.push(InputItem::Text { text: prompt.clone() });
    proof {
        assert(items_view(input@) =~= seq![(0int, prompt@)]);
    }
    spawn(state, sub_id, AgentTaskKind::Review, input, review_context, &mut actions);
    let ghost a1 = actions@;
    proof {
        assert(a1.skip(0) =~= a1);
    }
    actions.push(emit(sub_id, EventMsg::EnteredReviewMode { prompt }));
    proof {
        assert(actions@.drop_last() =~= a1);
        assert(actions@[actions@.len() - 2] == a1.last());
    }
    actions
}

/// What the client is told of the hooks of the session.
pub open spec fn hooks_listed(
    hooks: HookExecutor,
    sub_id: Seq<char>,
    request: HookListRequest,
    r: Seq<LoopAction>,
) -> bool {
    &&& r.len() == 1
    &&& tells(r[0], sub_id, 5)
    &&& r[0]->Emit_0.msg->HookListResponse_registry.deep_view()
        == crate::hooks::snapshot::snapshot_of(hooks.registry.deep_view(), request)
}

/// Tells the client the hooks of the session as the request asks for
/// them.
pub fn on_hook_list(hooks: &HookExecutor, sub_id: &str, request: &HookListRequest) -> (r: Vec<
    LoopAction,
>)
    ensures
        hooks_listed(
            *hooks,
            sub_id@,
            *request,
            r@,
        ),
{
    let mut actions: Vec<LoopAction> = Vec::new();
    let registry = build_hook_registry_snapshot(&hooks.registry, request);
    actions.push(emit(sub_id, EventMsg::HookListResponse { registry }));
    actions
}

/// What the client is told of the log of the hooks from within a
/// session.
pub open spec fn hook_log_answered(
    sub_id: Seq<char>,
    r: Seq<LoopAction>,
) -> bool {
    &&& r.len() == 1
    &&& tells(r[0], sub_id, 6)
    &&& r[0]->Emit_0.msg->HookExecLogResponse_records@.len() == 0
}

/// Answers a request for the log of the hooks from within a session:
/// with no records.
pub fn on_hook_exec_log(sub_id: &str) -> (r: Vec<LoopAction>)
    ensures
        hook_log_answered(
            sub_id@,
            r@,
        ),
{
    let mut actions: Vec<LoopAction> = Vec::new();
    actions.push(emit(sub_id, EventMsg::HookExecLogResponse { records: Vec::new() }));
    actions
}

/// What the client is told of a check of the hooks from within a
/// session.
pub open spec fn hooks_checked(
    sub_id: Seq<char>,
    r: Seq<LoopAction>,
) -> bool {
    &&& r.len() == 1
    &&& tells(r[0], sub_id, 7)
    &&& ({
        let summary = r[0]->Emit_0.msg->HookValidationResult_summary;
        summary.status == HookValidationStatus::Okay && summary.errors@.len() == 0
            && summary.warnings@.len() == 0 && summary.layers@.len() == 0
    })
}

/// Answers a request to check the hooks from within a session: all is
/// well, and nothing is listed.
pub fn on_hook_validate(sub_id: &str) -> (r: Vec<LoopAction>)
    ensures
        hooks_checked(
            sub_id@,
            r@,
        ),
{
    let mut actions: Vec<LoopAction> = Vec::new();
    actions.push(
        emit(
            sub_id,
            EventMsg::HookValidationResult {
                summary: HookValidationSummary {
                    status: HookValidationStatus::Okay,
                    errors: Vec::new(),
                    warnings: Vec::new(),
                    layers: Vec::new(),
                },
            },
        ),
    );
    actions
}

/// What the client is told of a request to load the hooks anew.
pub open spec fn hooks_reloaded(
    sub_id: Seq<char>,
    r: Seq<LoopAction>,
) -> bool {
    &&& r.len() == 1
    &&& tells(r[0], sub_id, 8)
    &&& !r[0]->Emit_0.msg->HookReloadResult_result.reloaded
    &&& r[0]->Emit_0.msg->HookReloadResult_result.message.deep_view() == Some(
        "hook reload placeholder"@,
    )
}

/// Answers a request to load the hooks anew: nothing was loaded.
pub fn on_hook_reload(sub_id: &str) -> (r: Vec<LoopAction>)
    ensures
        hooks_reloaded(
            sub_id@,
            r@,
        ),
{
    let mut actions: Vec<LoopAction> = Vec::new();
    actions.push(
        emit(
            sub_id,
            EventMsg::HookReloadResult {
                result: HookReloadResponse {
                    reloaded: false,
                    message: Some(String::from_str("hook reload placeholder")),
                },
            },
        ),
    );
    actions
}

/// What the client is told once the record of the session is closed,
/// at the end of the session: that the closing failed, where it did,
/// and then that the session is shut down.
pub fn on_rollout_closed(sub_id: &str, failed: bool) -> (r: Vec<LoopAction>)
    ensures
        r@.len() == (if failed {
            2int
        } else {
            1int
        }),
        failed ==> tells_error(r@[0], sub_id@, "Failed to shutdown rollout recorder"@),
        tells(r@.last(), sub_id@, 9),
{
    let mut actions: Vec<LoopAction> = Vec::new();
    if failed {
        actions.push(error_event(sub_id, String::from_str("Failed to shutdown rollout recorder")));
    }
    actions.push(emit(sub_id, EventMsg::ShutdownComplete));
    actions
}

/// What the settings of the program say of the requests of a
/// session.
#[derive(Debug)]
pub struct LoopSettings {
    pub plan_mode: PlanModeConfig,
    pub include_plan_tool: bool,
    pub include_apply_patch_tool: bool,
    /// The model that checks code, and what it is told to do.
    pub review_model: String,
    pub review_instructions: String,
    /// The text that asks the model for a summary.
    pub compact_trigger: String,
}

/// What the caller found out for a request before the session takes
/// it up.
#[derive(Debug)]
pub struct SubmissionFacts {
    /// What the first text of an input stands for as a slash command.
    pub resolution: SlashResolution,
    /// Where each local image of an input lies.
    pub attachments: Vec<AttachmentFact>,
    /// The guidance for the sub-agents of the session, if it has any.
    pub guidance: Option<String>,
    /// The id of the conversation.
    pub session_id: uuid::Uuid,
    /// What Plan Mode may know of the tools of the session.
    pub capabilities: Vec<ToolCapability>,
}

/// Whether a request left the session and the context of the turns
/// to come as they were.
pub open spec fn unchanged(
    before: SessionState,
    after: SessionState,
    context: TurnContext,
    next: TurnContext,
) -> bool {
    after == before && next == context
}

/// Takes up one request of a client, and says what the caller is to
/// do for it and whether the session ends with it. Each kind of
/// request is dealt with as the function for it says (`on_interrupt`,
/// `on_user_input`, `on_user_turn`, `override_turn_context`,
/// `on_approval_op`, `on_subagent_approval_op`, `on_compact`,
/// `on_enter_plan_mode`, `on_exit_plan_mode`, `on_apply_plan_mode`,
/// `on_review`, `on_hook_list` and the other functions for the
/// hooks). What only the caller can do is handed on as one action.
/// The session ends with the request to shut down, after its record
/// is closed.
pub fn handle_submission(
    state: &mut SessionState,
    hooks: &HookExecutor,
    context: &mut TurnContext,
    settings: &LoopSettings,
    sub: Submission,
    facts: SubmissionFacts,
) -> (r: (Vec<LoopAction>, bool))
    ensures
        r.1 == (sub.op is Shutdown),
        match sub.op {
            Op::Interrupt => interrupted(*old(state), *final(state), r.0@) && *final(context)
                == *old(context),
            Op::UserInput { items } => input_taken(
                *old(state),
                *final(state),
                *old(context),
                sub.id@,
                items,
                facts.resolution,
                facts.attachments,
                r.0@,
            ) && *final(context) == *old(context),
            Op::UserTurn { items, cwd, approval_policy, sandbox_policy, model } => turn_taken(
                *old(state),
                *final(state),
                *old(context),
                *final(context),
                sub.id@,
                items,
                cwd,
                approval_policy,
                sandbox_policy,
                model,
                facts.guidance,
                r.0@,
            ),
            Op::OverrideTurnContext {
                cwd,
                approval_policy,
                sandbox_policy,
                model,
            } => context_overridden(
                *old(context),
                *final(context),
                ContextOverrides { cwd, approval_policy, sandbox_policy, model },
                facts.guidance,
                r.0@,
            ) && *final(state) == *old(state),
            Op::ExecApproval { id, decision } => approval_answered(
                *old(state),
                *final(state),
                id@,
                decision,
                r.0@,
            ) && *final(context) == *old(context),
            Op::PatchApproval { id, decision } => approval_answered(
                *old(state),
                *final(state),
                id@,
                decision,
                r.0@,
            ) && *final(context) == *old(context),
            Op::SubagentApproval { name, decision } => subagent_approval_answered(
                *old(state),
                *final(state),
                name@,
                decision,
                r.0@,
            ) && *final(context) == *old(context),
            Op::AddToHistory { text } => r.0@ == seq![LoopAction::AppendHistory { text }]
                && unchanged(*old(state), *final(state), *old(context), *final(context)),
            Op::GetHistoryEntryRequest { offset, log_id } => r.0@ == seq![
                LoopAction::LookupHistory { offset, log_id },
            ] && unchanged(*old(state), *final(state), *old(context), *final(context)),
            Op::HookList(request) => hooks_listed(*hooks, sub.id@, request, r.0@) && unchanged(
                *old(state),
                *final(state),
                *old(context),
                *final(context),
            ),
            Op::HookExecLog(_) => hook_log_answered(sub.id@, r.0@) && unchanged(
                *old(state),
                *final(state),
                *old(context),
                *final(context),
            ),
            Op::HookValidate(_) => hooks_checked(sub.id@, r.0@) && unchanged(
                *old(state),
                *final(state),
                *old(context),
                *final(context),
            ),
            Op::HookReload => hooks_reloaded(sub.id@, r.0@) && unchanged(
                *old(state),
                *final(state),
                *old(context),
                *final(context),
            ),
            Op::ListMcpTools => r.0@ == seq![LoopAction::ListMcpTools] && unchanged(
                *old(state),
                *final(state),
                *old(context),
                *final(context),
            ),
            Op::ListCustomPrompts => r.0@ == seq![LoopAction::ListCustomPrompts] && unchanged(
                *old(state),
                *final(state),
                *old(context),
                *final(context),
            ),
            Op::Compact => compaction_asked(
                *old(state),
                *final(state),
                *old(context),
                sub.id@,
                settings.compact_trigger@,
                r.0@,
            ) && *final(context) == *old(context),
            Op::EnterPlanMode => plan_mode_entered(
                *old(state),
                *final(state),
                *old(context),
                *final(context),
                sub.id@,
                facts.session_id,
                facts.capabilities,
                settings.plan_mode,
                r.0@,
            ),
            Op::ExitPlanMode => plan_mode_left(
                *old(state),
                *final(state),
                *old(context),
                *final(context),
                sub.id@,
                settings.include_plan_tool,
                settings.include_apply_patch_tool,
                r.0@,
            ),
            Op::ApplyPlanMode { target_mode } => plan_applied(
                *old(state),
                *final(state),
                *old(context),
                *final(context),
                sub.id@,
                target_mode,
                settings.include_plan_tool,
                settings.include_apply_patch_tool,
                r.0@,
            ),
            Op::Review { prompt } => review_begun(
                *old(state),
                *final(state),
                *old(context),
                sub.id@,
                prompt,
                settings.review_instructions@,
                settings.review_model@,
                r.0@,
            ) && *final(context) == *old(context),
            Op::GetPath => r.0@ == seq![LoopAction::ReportPath] && unchanged(
                *old(state),
                *final(state),
                *old(context),
                *final(context),
            ),
            Op::Shutdown => r.0@ == seq![LoopAction::CloseRollout] && unchanged(
                *old(state),
                *final(state),
                *old(context),
                *final(context),
            ),
        },
{
    let Submission { id, op } = sub;
    let SubmissionFacts { resolution, attachments, guidance, session_id, capabilities } = facts;
    let mut stop = false;
    let actions = match op {
        Op::Interrupt => on_interrupt(state),
        Op::UserInput { items } => on_user_input(
            state,
            context,
            id.as_str(),
            items,
            resolution,
            &attachments,
        ),
        Op::UserTurn { items, cwd, approval_policy, sandbox_policy, model } => on_user_turn(
            state,
            context,
            id.as_str(),
            items,
            cwd,
            approval_policy,
            sandbox_policy,
            model,
            guidance,
        ),
        Op::OverrideTurnContext {
            cwd,
            approval_policy,
            sandbox_policy,
            model,
        } => override_turn_context(
            context,
            ContextOverrides { cwd, approval_policy, sandbox_policy, model },
            guidance,
        ),
        Op::ExecApproval { id: call, decision } => on_approval_op(state, call.as_str(), decision),
        Op::PatchApproval { id: call, decision } => on_approval_op(state, call.as_str(), decision),
        Op::SubagentApproval { name, decision } => on_subagent_approval_op(
            state,
            name.as_str(),
            decision,
        ),
        Op::AddToHistory { text } => {
            let mut actions: Vec<LoopAction> = Vec::new();
            actions.push(LoopAction::AppendHistory { text });
            proof {
                assert(actions@ =~= seq![actions@[0]]);
            }
            actions
        },
        Op::GetHistoryEntryRequest { offset, log_id } => {
            let mut actions: Vec<LoopAction> = Vec::new();
            actions.push(LoopAction::LookupHistory { offset, log_id });
            proof {
                assert(actions@ =~= seq![actions@[0]]);
            }
            actions
        },
        Op::HookList(request) => on_hook_list(hooks, id.as_str(), &request),
        Op::HookExecLog(_) => on_hook_exec_log(id.as_str()),
        Op::HookValidate(_) => on_hook_validate(id.as_str()),
        Op::HookReload => on_hook_reload(id.as_str()),
        Op::ListMcpTools => {
            let mut actions: Vec<LoopAction> = Vec::new();
            actions.push(LoopAction::ListMcpTools);
            proof {
                assert(actions@ =~= seq![actions@[0]]);
            }
            actions
        },
        Op::ListCustomPrompts => {
            let mut actions: Vec<LoopAction> = Vec::new();
            actions.push(LoopAction::ListCustomPrompts);
            proof {
                assert(actions@ =~= seq![actions@[0]]);
            }
            actions
        },
        Op::Compact => on_compact(state, context, id.as_str(), settings.compact_trigger.as_str()),
        Op::EnterPlanMode => on_enter_plan_mode(
            state,
            context,
            id.as_str(),
            session_id,
            capabilities,
            &settings.plan_mode,
        ),
        Op::ExitPlanMode => on_exit_plan_mode(
            state,
            context,
            id.as_str(),
            settings.include_plan_tool,
            settings.include_apply_patch_tool,
        ),
        Op::ApplyPlanMode { target_mode } => on_apply_plan_mode(
            state,
            context,
            id.as_str(),
            target_mode,
            settings.include_plan_tool,
            settings.include_apply_patch_tool,
        ),
        Op::Review { prompt } => on_review(
            state,
            context,
            id.as_str(),
            prompt,
            settings.review_instructions.as_str(),
            settings.review_model.as_str(),
        ),
        Op::GetPath => {
            let mut actions: Vec<LoopAction> = Vec::new();
            actions.push(LoopAction::ReportPath);
            proof {
                assert(actions@ =~= seq![actions@[0]]);
            }
            actions
        },
        Op::Shutdown => {
            stop = true;
            let mut actions: Vec<LoopAction> = Vec::new();
            actions.push(LoopAction::CloseRollout);
            proof {
                assert(actions@ =~= seq![actions@[0]]);
            }
            actions
        },
    };
    (actions, stop)
}

/// What the client is told after the slash commands were loaded
/// anew, by how many there are.
pub open spec fn reloaded_text(count: usize) -> Seq<char> {
    if count == 1 {
        "Reloaded 1 slash command"@
    } else {
        "Reloaded "@ + crate::numfmt::decimal(count as nat) + " slash commands"@
    }
}

/// Tells the client what came of loading the slash commands anew: as
/// a note how many there are now; as an error why the load failed, or
/// that the session has no slash commands (`outcome` is `None` then).
pub fn on_reload_slash_commands(sub_id: &str, outcome: Option<Result<usize, String>>) -> (r: Vec<
    LoopAction,
>)
    ensures
        r@.len() == 1,
        r@[0] is Emit,
        r@[0]->Emit_0.id@ == sub_id@,
        match outcome {
            Some(Ok(count)) => r@[0]->Emit_0.msg is BackgroundEvent
                && r@[0]->Emit_0.msg->BackgroundEvent_message@ == reloaded_text(count),
            Some(Err(e)) => tells_error(r@[0], sub_id@, "Failed to reload slash commands: "@ + e@),
            None => tells_error(
                r@[0],
                sub_id@,
                "Slash commands are not enabled for this session."@,
            ),
        },
{
    let mut actions: Vec<LoopAction> = Vec::new();
    match outcome {
        Some(Ok(count)) => {
            let mut m: Vec<char> = Vec::new();
            if count == 1 {
                push_str(&mut m, "Reloaded 1 slash command");
            } else {
                push_str(&mut m, "Reloaded ");
                let digits = crate::numfmt::decimal_chars(count as u64);
                crate::text::push_all(&mut m, &digits);
                push_str(&mut m, " slash commands");
            }
            actions.push(emit(sub_id, EventMsg::BackgroundEvent { message: string_of(&m) }));
        },
        Some(Err(e)) => {
            let mut m: Vec<char> = Vec::new();
            push_str(&mut m, "Failed to reload slash commands: ");
            push_str(&mut m, e.as_str());
            actions.push(error_event(sub_id, string_of(&m)));
        },
        None => {
            actions.push(
                error_event(
                    sub_id,
                    String::from_str("Slash commands are not enabled for this session."),
                ),
            );
        },
    }
    actions
}

} // verus!
