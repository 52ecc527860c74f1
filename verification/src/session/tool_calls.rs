//! The tools of the session that need no command: viewing an image,
//! the plan, the unified exec, and the call of a sub-agent.

use crate::copying::{copy_opt_string, copy_strings};
use crate::numfmt::{parse_i32, parsed_i32};
use crate::protocol::events::{Event, EventMsg, SubagentApprovalRequestEvent};
use crate::protocol::items::{InputItem, ResponseInputItem};
use crate::protocol::SubagentApprovalDecision;
use crate::session::replies::{is_reply, reply, reply_about, reply_around};
use crate::plan_mode::entry::PlanEntryType;
use crate::plan_mode::session::{payload_of, tool_allowed, with_step};
use crate::session::state::{
    attachment_refusal, attachments_accepted, input_content, input_item, waiting, with_report,
    AttachmentFact, SessionState, UpdatePlanArgs,
};
use crate::subagents::config::SubagentDiscoveryMode;
use crate::subagents::definition::{normalized_name, SubagentDefinition};
use crate::subagents::invocation::{fresh_session, InvocationSession, InvocationSessionView};
use crate::subagents::record::{SubagentRecord, SubagentRecordView};
use crate::subagents::runner::{
    invoke_outcome, PreparedSubagentInvocation, SubagentInvocationError,
    SubagentInvocationErrorView, SubagentRunner,
};
use crate::text::{blank, is_blank, push_str, string_of, trim, trimmed};
use vstd::prelude::*;

verus! {

/// Attaches a local image to the next turn, where that is allowed.
/// While Plan Mode is on, attachments must be allowed and the image
/// must lie within the workspace; and a task must be running to take
/// the image.
pub fn view_image_reply(state: &mut SessionState, call_id: &str, fact: AttachmentFact, cwd: &str) -> (r:
    ResponseInputItem)
    ensures
        attachments_accepted(*old(state), seq![fact]) == (attachment_refusal(
            *old(state),
            seq![fact],
            cwd@,
        ) is None),
        match attachment_refusal(*old(state), seq![fact], cwd@) {
            Some(text) => is_reply(r, call_id@, text, Some(false)) && *final(state) == *old(state),
            None => match old(state).current_task {
                Some(_) => is_reply(r, call_id@, "attached local image path"@, Some(true))
                    && waiting(*final(state)) == waiting(*old(state)).push(
                    input_item(seq![InputItem::LocalImage { path: fact.absolute }]),
                ),
                None => is_reply(
                    r,
                    call_id@,
                    "unable to attach image (no active task)"@,
                    Some(false),
                ) && final(state).pending_input == old(state).pending_input,
            },
        },
        final(state).current_task == old(state).current_task,
        final(state).plan_mode == old(state).plan_mode,
        final(state).plan_mode_prompt_recorded == old(state).plan_mode_prompt_recorded,
        final(state).history == old(state).history,
        final(state).approved_commands == old(state).approved_commands,
        final(state).pending_approvals == old(state).pending_approvals,
        final(state).pending_subagent_approvals == old(state).pending_subagent_approvals,
        final(state).next_internal_sub_id == old(state).next_internal_sub_id,
{
    let path = fact.absolute.clone();
    let mut facts: Vec<AttachmentFact> = Vec::new();
    facts.push(fact);
    proof {
        assert(facts@ =~= seq![fact]);
    }
    match state.validate_plan_mode_attachments(&facts, cwd) {
        Err(message) => {
            return reply(call_id, message, Some(false));
        },
        Ok(_) => {},
    }
    let mut input: Vec<InputItem> = Vec::new();
    input.push(InputItem::LocalImage { path });
    proof {
        let held = seq![InputItem::LocalImage { path: fact.absolute }];
        assert(input_content(input@, 0) =~= input_content(held, 0));
        assert(input_content(input@, 1) =~= input_content(held, 1));
    }
    match state.inject_input(input) {
        Ok(_) => reply(call_id, String::from_str("attached local image path"), Some(true)),
        Err(_) => reply(
            call_id,
            String::from_str("unable to attach image (no active task)"),
            Some(false),
        ),
    }
}

/// Takes what the plan tool reports into the plan of Plan Mode, where
/// that is on (the client is told of the plan then), and answers the
/// call. A report that could not be read is answered as such.
pub fn update_plan_reply(
    state: &mut SessionState,
    sub_id: &str,
    call_id: &str,
    decoded: Result<UpdatePlanArgs, String>,
) -> (r: (Option<Event>, ResponseInputItem))
    ensures
        match decoded {
            Ok(update) => is_reply(r.1, call_id@, "Plan updated"@, Some(true)) && (
            match old(state).plan_mode {
                Some(session) => final(state).plan_mode is Some && final(state).plan_mode->0.deep_view() == with_report(
                    session.deep_view(),
                    update,
                ) && (r.0 matches Some(e) && e.id@ == sub_id@ && (e.msg matches EventMsg::PlanModeUpdated {
                    session: told,
                } && told.deep_view() == payload_of(final(state).plan_mode->0.deep_view()))),
                None => r.0 is None && *final(state) == *old(state),
            }),
            Err(e) => is_reply(r.1, call_id@, "failed to parse function arguments: "@ + e@, None)
                && r.0 is None && *final(state) == *old(state),
        },
        *final(state) == (SessionState { plan_mode: final(state).plan_mode, ..*old(state) }),
        final(state).plan_mode is Some == old(state).plan_mode is Some,
{
    match decoded {
        Ok(args) => {
            let event = match state.apply_plan_tool_update(&args) {
                Some(session) => Some(
                    Event { id: String::from_str(sub_id), msg: EventMsg::PlanModeUpdated { session } },
                ),
                None => None,
            };
            (event, reply(call_id, String::from_str("Plan updated"), Some(true)))
        },
        Err(e) => (
            None,
            reply_about(call_id, "failed to parse function arguments: ", e.as_str(), None),
        ),
    }
}

/// What becomes of the session id that the unified exec was called
/// with, given what the text of the id parses to: the number, nothing
/// where no id was given, or the answer to the call where the id is no
/// number.
pub open spec fn session_id_outcome(
    session_id: Option<Seq<char>>,
    parsed: Result<int, Seq<char>>,
) -> Result<Option<int>, Seq<char>> {
    match session_id {
        None => Ok(None),
        Some(text) => match parsed {
            Ok(n) => Ok(Some(n)),
            Err(e) => Err("invalid session_id: "@ + text + " due to error "@ + e),
        },
    }
}

/// Decides on the session id of a call of the unified exec from what
/// its text parsed to.
pub fn session_id_from(call_id: &str, session_id: &Option<String>, parsed: Result<i32, String>) -> (r:
    Result<Option<i32>, ResponseInputItem>)
    ensures
        match session_id_outcome(
            session_id.deep_view(),
            match parsed {
                Ok(n) => Ok(n as int),
                Err(e) => Err(e@),
            },
        ) {
            Ok(Some(n)) => r == Ok::<Option<i32>, ResponseInputItem>(Some(n as i32)),
            Ok(None) => r == Ok::<Option<i32>, ResponseInputItem>(None),
            Err(text) => r is Err && is_reply(r->Err_0, call_id@, text, Some(false)),
        },
{
    match session_id {
        None => Ok(None),
        Some(text) => match parsed {
            Ok(n) => Ok(Some(n)),
            Err(e) => {
                let mut m: Vec<char> = Vec::new();
                push_str(&mut m, "invalid session_id: ");
                push_str(&mut m, text.as_str());
                push_str(&mut m, " due to error ");
                push_str(&mut m, e.as_str());
                Err(reply(call_id, string_of(&m), Some(false)))
            },
        },
    }
}

/// The session id of a call of the unified exec: the number that its
/// text stands for.
pub fn unified_exec_session_id(call_id: &str, session_id: &Option<String>) -> (r: Result<
    Option<i32>,
    ResponseInputItem,
>)
    ensures
        match session_id_outcome(
            session_id.deep_view(),
            match session_id.deep_view() {
                Some(text) => parsed_i32(text),
                None => Ok(0),
            },
        ) {
            Ok(Some(n)) => r == Ok::<Option<i32>, ResponseInputItem>(Some(n as i32)),
            Ok(None) => r == Ok::<Option<i32>, ResponseInputItem>(None),
            Err(text) => r is Err && is_reply(r->Err_0, call_id@, text, Some(false)),
        },
{
    let parsed = match session_id {
        Some(text) => parse_i32(text.as_str()),
        None => Ok(0),
    };
    session_id_from(call_id, session_id, parsed)
}

/// What a call of the unified exec came to: its output in the form in
/// which the model gets it, the reason why the output could not be
/// put in that form, or the reason why the call failed.
#[derive(Debug, PartialEq, Eq)]
pub enum UnifiedExecOutcome {
    Output(String),
    NotSerialized(String),
    Failed(String),
}

/// The answer to a call of the unified exec.
pub fn unified_exec_reply(call_id: &str, outcome: UnifiedExecOutcome) -> (r: ResponseInputItem)
    ensures
        match outcome {
            UnifiedExecOutcome::Output(text) => is_reply(r, call_id@, text@, Some(true)),
            UnifiedExecOutcome::NotSerialized(e) => is_reply(
                r,
                call_id@,
                "failed to serialize unified exec output: "@ + e@,
                Some(false),
            ),
            UnifiedExecOutcome::Failed(e) => is_reply(
                r,
                call_id@,
                "unified exec failed: "@ + e@,
                Some(false),
            ),
        },
{
    match outcome {
        UnifiedExecOutcome::Output(text) => reply(call_id, text, Some(true)),
        UnifiedExecOutcome::NotSerialized(e) => reply_about(
            call_id,
            "failed to serialize unified exec output: ",
            e.as_str(),
            Some(false),
        ),
        UnifiedExecOutcome::Failed(e) => reply_about(
            call_id,
            "unified exec failed: ",
            e.as_str(),
            Some(false),
        ),
    }
}

/// What the model calls a sub-agent with.
#[derive(Debug, PartialEq, Eq)]
pub struct InvokeSubagentArgs {
    pub name: String,
    pub instructions: Option<String>,
    pub requested_tools: Vec<String>,
    pub model: Option<String>,
    pub confirmed: bool,
}

/// The instructions of a call without white space around them, where
/// anything is left of them.
pub open spec fn given_instructions(instructions: Option<Seq<char>>) -> Option<Seq<char>> {
    match instructions {
        Some(text) => if is_blank(text) {
            None
        } else {
            Some(trimmed(text))
        },
        None => None,
    }
}

/// The request that a call of the model makes of a sub-agent: for the
/// agent of the normalised name, with the tools and the model that the
/// call asks for, with its instructions (noted in the log as well),
/// and confirmed where the call says so or where the agents of this
/// session are named by hand.
pub open spec fn requested_session(
    name: Seq<char>,
    instructions: Option<Seq<char>>,
    requested_tools: Seq<Seq<char>>,
    model: Option<Seq<char>>,
    confirmed: bool,
    parent_session_id: Seq<char>,
    discovery: SubagentDiscoveryMode,
) -> InvocationSessionView {
    InvocationSessionView {
        parent_session_id: Some(parent_session_id),
        requested_tools,
        resolved_model: model,
        extra_instructions: given_instructions(instructions),
        execution_log: match given_instructions(instructions) {
            Some(text) => seq!["instructions: "@ + text],
            None => Seq::empty(),
        },
        confirmed: confirmed || discovery == SubagentDiscoveryMode::Manual,
        ..fresh_session(normalized_name(trimmed(name)))
    }
}

/// Makes the request that a call of the model makes of a sub-agent.
pub fn subagent_session(
    args: &InvokeSubagentArgs,
    parent_session_id: &str,
    discovery: SubagentDiscoveryMode,
) -> (r: InvocationSession)
    ensures
        r.deep_view() == requested_session(
            args.name@,
            args.instructions.deep_view(),
            args.requested_tools.deep_view(),
            args.model.deep_view(),
            args.confirmed,
            parent_session_id@,
            discovery,
        ),
{
    let name = trim(args.name.as_str());
    let normalized = SubagentDefinition::normalize_name(name.as_str());
    let mut session = InvocationSession::new(normalized.as_str());
    session.parent_session_id = Some(String::from_str(parent_session_id));
    session.requested_tools = copy_strings(&args.requested_tools);
    session.resolved_model = copy_opt_string(&args.model);
    match &args.instructions {
        Some(text) => {
            if !blank(text.as_str()) {
                let kept = trim(text.as_str());
                let mut line: Vec<char> = Vec::new();
                push_str(&mut line, "instructions: ");
                push_str(&mut line, kept.as_str());
                session.execution_log.push(string_of(&line));
                session.extra_instructions = Some(kept);
                proof {
                    assert(session.execution_log.deep_view() =~= seq![
                        "instructions: "@ + trimmed(text@),
                    ]);
                }
            }
        },
        None => {},
    }
    match discovery {
        SubagentDiscoveryMode::Manual => {
            session.confirmed = true;
        },
        _ => {
            session.confirmed = args.confirmed;
        },
    }
    session
}

/// The answer to a call for a sub-agent in a session that has no
/// sub-agents, or no configuration for them.
pub fn subagents_unavailable(call_id: &str, has_inventory: bool, has_config: bool) -> (r: Option<
    ResponseInputItem,
>)
    ensures
        !has_inventory ==> r is Some && is_reply(
            r->0,
            call_id@,
            "Subagents feature is disabled for this session."@,
            Some(false),
        ),
        has_inventory && !has_config ==> r is Some && is_reply(
            r->0,
            call_id@,
            "Subagents configuration is unavailable; enable subagents.enabled in config."@,
            Some(false),
        ),
        has_inventory && has_config ==> r is None,
{
    if !has_inventory {
        Some(
            reply(
                call_id,
                String::from_str("Subagents feature is disabled for this session."),
                Some(false),
            ),
        )
    } else if !has_config {
        Some(
            reply(
                call_id,
                String::from_str(
                    "Subagents configuration is unavailable; enable subagents.enabled in config.",
                ),
                Some(false),
            ),
        )
    } else {
        None
    }
}

/// What the model is told of a request that was refused.
pub open spec fn refusal_text(e: SubagentInvocationErrorView) -> Seq<char> {
    match e {
        SubagentInvocationErrorView::FeatureDisabled => "Subagents feature is disabled."@,
        SubagentInvocationErrorView::UnknownSubagent(name) => "No subagent named '"@ + name + "'."@,
        SubagentInvocationErrorView::InvalidSubagent(name) => "Subagent '"@ + name
            + "' is invalid."@,
        SubagentInvocationErrorView::DisabledSubagent(name) => "Subagent '"@ + name
            + "' is disabled."@,
        SubagentInvocationErrorView::ToolNotAllowed { subagent, tool } => "Tool '"@ + tool
            + "' not allowed for subagent '"@ + subagent + "'."@,
        SubagentInvocationErrorView::ConfirmationRequired { subagent, .. } => "Subagent '"@
            + subagent + "' invocation denied by user."@,
        SubagentInvocationErrorView::ExecutionFailed(reason) => reason,
        SubagentInvocationErrorView::MissingAuthManager => "Subagent execution requires authentication context."@,
    }
}

/// Tells the model that a request was refused, and why. Of a request
/// that waits to be confirmed this is the answer where the user
/// denies it.
pub fn refusal_reply(call_id: &str, e: &SubagentInvocationError) -> (r: ResponseInputItem)
    ensures
        is_reply(r, call_id@, refusal_text(e.deep_view()), Some(false)),
{
    match e {
        SubagentInvocationError::FeatureDisabled => reply(
            call_id,
            String::from_str("Subagents feature is disabled."),
            Some(false),
        ),
        SubagentInvocationError::UnknownSubagent(name) => reply_around(
            call_id,
            "No subagent named '",
            name.as_str(),
            "'.",
            Some(false),
        ),
        SubagentInvocationError::InvalidSubagent(name) => reply_around(
            call_id,
            "Subagent '",
            name.as_str(),
            "' is invalid.",
            Some(false),
        ),
        SubagentInvocationError::DisabledSubagent(name) => reply_around(
            call_id,
            "Subagent '",
            name.as_str(),
            "' is disabled.",
            Some(false),
        ),
        SubagentInvocationError::ToolNotAllowed { subagent, tool } => {
            let mut m: Vec<char> = Vec::new();
            push_str(&mut m, "Tool '");
            push_str(&mut m, tool.as_str());
            push_str(&mut m, "' not allowed for subagent '");
            push_str(&mut m, subagent.as_str());
            push_str(&mut m, "'.");
            reply(call_id, string_of(&m), Some(false))
        },
        SubagentInvocationError::ConfirmationRequired { subagent, .. } => reply_around(
            call_id,
            "Subagent '",
            subagent.as_str(),
            "' invocation denied by user.",
            Some(false),
        ),
        SubagentInvocationError::ExecutionFailed(reason) => reply(
            call_id,
            reason.clone(),
            Some(false),
        ),
        SubagentInvocationError::MissingAuthManager => reply(
            call_id,
            String::from_str("Subagent execution requires authentication context."),
            Some(false),
        ),
    }
}

pub struct SubagentApprovalRequestView {
    pub subagent: Seq<char>,
    pub description: Option<Seq<char>>,
    pub extra_instructions: Option<Seq<char>>,
    pub allowed_tools: Seq<Seq<char>>,
    pub requested_tools: Seq<Seq<char>>,
    pub model: Option<Seq<char>>,
}

/// What a question to the user says.
pub open spec fn request_view(e: SubagentApprovalRequestEvent) -> SubagentApprovalRequestView {
    SubagentApprovalRequestView {
        subagent: e.subagent@,
        description: e.description.deep_view(),
        extra_instructions: e.extra_instructions.deep_view(),
        allowed_tools: e.allowed_tools.deep_view(),
        requested_tools: e.requested_tools.deep_view(),
        model: e.model.deep_view(),
    }
}

/// What the user is asked before a sub-agent runs unconfirmed: the
/// agent by its name and, where it has one, its description; the
/// instructions of the request, where it has any; the tools that the
/// agent may use and those that the request asks for; and the model of
/// the request, else that of the agent.
pub open spec fn approval_question(
    subagent: Seq<char>,
    record: SubagentRecordView,
    pending: InvocationSessionView,
) -> SubagentApprovalRequestView {
    SubagentApprovalRequestView {
        subagent,
        description: if is_blank(record.definition.description) {
            None
        } else {
            Some(record.definition.description)
        },
        extra_instructions: match pending.extra_instructions {
            Some(text) => if is_blank(text) {
                None
            } else {
                Some(text)
            },
            None => None,
        },
        allowed_tools: record.effective_tools,
        requested_tools: pending.requested_tools,
        model: match pending.resolved_model {
            Some(m) => Some(m),
            None => record.effective_model,
        },
    }
}

/// Words the question to the user.
pub fn approval_request(subagent: &str, record: &SubagentRecord, pending: &InvocationSession) -> (r:
    SubagentApprovalRequestEvent)
    ensures
        request_view(r) == approval_question(subagent@, record.deep_view(), pending.deep_view()),
{
    let description = if blank(record.definition.description.as_str()) {
        None
    } else {
        Some(record.definition.description.clone())
    };
    let extra_instructions = match &pending.extra_instructions {
        Some(text) => if blank(text.as_str()) {
            None
        } else {
            Some(text.clone())
        },
        None => None,
    };
    let model = match &pending.resolved_model {
        Some(m) => Some(m.clone()),
        None => copy_opt_string(&record.effective_model),
    };
    SubagentApprovalRequestEvent {
        subagent: String::from_str(subagent),
        description,
        extra_instructions,
        allowed_tools: copy_strings(&record.effective_tools),
        requested_tools: copy_strings(&pending.requested_tools),
        model,
    }
}

/// What follows a request for a sub-agent.
#[derive(Debug)]
pub enum SubagentStep {
    /// The agent is to run.
    Run(PreparedSubagentInvocation),
    /// The user is to be asked first; `refusal` is what the model is
    /// told where the user denies.
    Ask { event: Event, pending: InvocationSession, refusal: ResponseInputItem },
    /// The model is answered: the request was refused.
    Reply(ResponseInputItem),
}

/// Puts a request to the runner and decides what follows: the agent
/// runs, or the user is asked first (the session then waits for the
/// answer under the agent's name), or the request is refused and the
/// model is told why.
pub fn subagent_step(
    state: &mut SessionState,
    runner: &SubagentRunner,
    session: InvocationSession,
    sub_id: &str,
    call_id: &str,
) -> (r: SubagentStep)
    ensures
        match invoke_outcome(
            runner.config.deep_view(),
            runner.inventory.deep_view(),
            session.deep_view(),
        ) {
            Ok(prepared) => r matches SubagentStep::Run(p) && p.deep_view() == prepared && *final(state) == *old(state),
            Err(SubagentInvocationErrorView::ConfirmationRequired { subagent, record, session: s }) => {
                &&& r matches SubagentStep::Ask { event, pending, refusal }
                &&& r->Ask_pending.deep_view() == s
                &&& r->Ask_event.id@ == sub_id@
                &&& r->Ask_event.msg matches EventMsg::SubagentApprovalRequest(q)
                &&& request_view(r->Ask_event.msg->SubagentApprovalRequest_0) == approval_question(
                    subagent,
                    record,
                    s,
                )
                &&& is_reply(
                    r->Ask_refusal,
                    call_id@,
                    "Subagent '"@ + subagent + "' invocation denied by user."@,
                    Some(false),
                )
                &&& final(state).pending_subagent_approvals.deep_view().contains(subagent)
                &&& forall|x: Seq<char>|
                    x != subagent ==> (final(state).pending_subagent_approvals.deep_view().contains(
                        x,
                    ) <==> old(state).pending_subagent_approvals.deep_view().contains(x))
                &&& *final(state) == (SessionState {
                    pending_subagent_approvals: final(state).pending_subagent_approvals,
                    ..*old(state)
                })
            },
            Err(e) => r matches SubagentStep::Reply(answer) && is_reply(
                answer,
                call_id@,
                refusal_text(e),
                Some(false),
            ) && *final(state) == *old(state),
        },
{
    match runner.invoke(session) {
        Ok(prepared) => SubagentStep::Run(prepared),
        Err(e) => {
            let refusal = refusal_reply(call_id, &e);
            match e {
                SubagentInvocationError::ConfirmationRequired { subagent, record, session } => {
                    let request = approval_request(subagent.as_str(), &record, &session);
                    state.await_subagent_approval(subagent.as_str());
                    SubagentStep::Ask {
                        event: Event {
                            id: String::from_str(sub_id),
                            msg: EventMsg::SubagentApprovalRequest(request),
                        },
                        pending: session,
                        refusal,
                    }
                },
                _ => SubagentStep::Reply(refusal),
            }
        },
    }
}

/// Takes up the user's answer to the question whether a sub-agent may
/// run: the request, confirmed, where the user approves; the refusal
/// where the user denies.
pub fn on_subagent_decision(
    pending: InvocationSession,
    refusal: ResponseInputItem,
    decision: SubagentApprovalDecision,
) -> (r: Result<InvocationSession, ResponseInputItem>)
    ensures
        match decision {
            SubagentApprovalDecision::Approved => r is Ok && r->Ok_0.deep_view() == (
            InvocationSessionView { confirmed: true, ..pending.deep_view() }),
            SubagentApprovalDecision::Denied => r == Err::<InvocationSession, ResponseInputItem>(
                refusal,
            ),
        },
{
    match decision {
        SubagentApprovalDecision::Approved => Ok(pending.confirmed()),
        SubagentApprovalDecision::Denied => Err(refusal),
    }
}

/// The answer to a call for a sub-agent that ran: its report, or the
/// reason why the run failed.
pub fn subagent_result_reply(call_id: &str, result: Result<String, String>) -> (r:
    ResponseInputItem)
    ensures
        match result {
            Ok(report) => is_reply(r, call_id@, report@, Some(true)),
            Err(e) => is_reply(r, call_id@, e@, Some(false)),
        },
{
    match result {
        Ok(report) => reply(call_id, report, Some(true)),
        Err(e) => reply(call_id, e, Some(false)),
    }
}

/// Whether Plan Mode, where it is on, keeps a tool of an MCP server
/// from being called: it does unless it allows the tool under its
/// qualified name or under its own.
pub open spec fn tool_call_blocked(state: SessionState, server: Seq<char>, tool: Seq<char>) -> bool {
    match state.plan_mode {
        Some(session) => !tool_allowed(session.deep_view(), server + "__"@ + tool) && !tool_allowed(
            session.deep_view(),
            tool,
        ),
        None => false,
    }
}

/// What the caller is told where Plan Mode keeps a tool from being
/// called.
pub open spec fn blocked_tool_text(server: Seq<char>, tool: Seq<char>) -> Seq<char> {
    "Plan Mode blocked MCP tool "@ + server + "::"@ + tool
        + ". Exit Plan Mode or update plan_mode.allowed_read_only_tools to run it."@
}

/// Plan Mode before a call of a tool of an MCP server. Where Plan Mode
/// keeps the tool from being called, the call is noted in the plan as
/// research, with its arguments; the client is told of the plan and
/// of the refusal; and the refusal comes back as the error of the
/// call. Else nothing happens, and the call may go on.
pub fn gate_tool_call(
    state: &mut SessionState,
    sub_id: &str,
    server: &str,
    tool: &str,
    arguments: Option<String>,
) -> (r: (Vec<Event>, Option<String>))
    ensures
        r.1.deep_view() == (if tool_call_blocked(*old(state), server@, tool@) {
            Some(blocked_tool_text(server@, tool@))
        } else {
            None
        }),
        !tool_call_blocked(*old(state), server@, tool@) ==> r.0@.len() == 0 && *final(state)
            == *old(state),
        tool_call_blocked(*old(state), server@, tool@) ==> {
            let steps = final(state).plan_mode->0.deep_view().plan_artifact.steps;
            &&& final(state).plan_mode is Some
            &&& steps.len() == old(state).plan_mode->0.deep_view().plan_artifact.steps.len() + 1
            &&& steps.last().entry_type == PlanEntryType::Research
            &&& steps.last().summary == "Call MCP tool "@ + server@ + "::"@ + tool@
            &&& steps.last().details == (match arguments {
                Some(a) => Some("arguments: "@ + a@),
                None => None,
            })
            &&& final(state).plan_mode->0.deep_view() == with_step(
                old(state).plan_mode->0.deep_view(),
                PlanEntryType::Research,
                "Call MCP tool "@ + server@ + "::"@ + tool@,
                match arguments {
                    Some(a) => Some("arguments: "@ + a@),
                    None => None,
                },
                steps.last().created_at,
            )
            &&& r.0@.len() == 2
            &&& (r.0@[0].msg matches EventMsg::PlanModeUpdated { session: told } && told.deep_view()
                == payload_of(final(state).plan_mode->0.deep_view()))
            &&& r.0@[0].id@ == sub_id@
            &&& r.0@[1].id@ == sub_id@
            &&& r.0@[1].msg is BackgroundEvent
            &&& r.0@[1].msg->BackgroundEvent_message@ == blocked_tool_text(server@, tool@)
        },
        final(state).current_task == old(state).current_task,
        final(state).history == old(state).history,
        *final(state) == (SessionState { plan_mode: final(state).plan_mode, ..*old(state) }),
{
    let mut events: Vec<Event> = Vec::new();
    let blocked = match &state.plan_mode {
        Some(session) => {
            let mut q: Vec<char> = Vec::new();
            push_str(&mut q, server);
            push_str(&mut q, "__");
            push_str(&mut q, tool);
            let qualified = string_of(&q);
            !session.is_tool_allowed(qualified.as_str()) && !session.is_tool_allowed(tool)
        },
        None => false,
    };
    if !blocked {
        return (events, None);
    }
    let mut s: Vec<char> = Vec::new();
    push_str(&mut s, "Call MCP tool ");
    push_str(&mut s, server);
    push_str(&mut s, "::");
    push_str(&mut s, tool);
    let summary = string_of(&s);
    let details = match &arguments {
        Some(a) => {
            let mut d: Vec<char> = Vec::new();
            push_str(&mut d, "arguments: ");
            push_str(&mut d, a.as_str());
            Some(string_of(&d))
        },
        None => None,
    };
    match state.capture_plan_entry(PlanEntryType::Research, summary.as_str(), details) {
        Some(pair) => {
            let (_telemetry, session) = pair;
            events.push(
                Event { id: String::from_str(sub_id), msg: EventMsg::PlanModeUpdated { session } },
            );
        },
        None => {},
    }
    let mut m: Vec<char> = Vec::new();
    push_str(&mut m, "Plan Mode blocked MCP tool ");
    push_str(&mut m, server);
    push_str(&mut m, "::");
    push_str(&mut m, tool);
    push_str(&mut m, ". Exit Plan Mode or update plan_mode.allowed_read_only_tools to run it.");
    let message = string_of(&m);
    events.push(
        Event {
            id: String::from_str(sub_id),
            msg: EventMsg::BackgroundEvent { message: message.clone() },
        },
    );
    (events, Some(message))
}

/// Asks the user whether a patch may be applied: the session waits
/// for the answer under the submission, and the client is asked.
pub fn request_patch_approval(
    state: &mut SessionState,
    sub_id: &str,
    call_id: &str,
    changes: Vec<String>,
    reason: Option<String>,
    grant_root: Option<String>,
) -> (r: Event)
    ensures
        final(state).pending_approvals.deep_view().contains(sub_id@),
        crate::session::exec::waits_for(*old(state), *final(state), sub_id@),
        final(state).current_task == old(state).current_task,
        final(state).plan_mode == old(state).plan_mode,
        final(state).history == old(state).history,
        r.id@ == sub_id@,
        r.msg == (EventMsg::ApplyPatchApprovalRequest {
            call_id: r.msg->ApplyPatchApprovalRequest_call_id,
            changes,
            reason,
            grant_root,
        }),
        r.msg->ApplyPatchApprovalRequest_call_id@ == call_id@,
{
    state.await_approval(sub_id);
    Event {
        id: String::from_str(sub_id),
        msg: EventMsg::ApplyPatchApprovalRequest {
            call_id: String::from_str(call_id),
            changes,
            reason,
            grant_root,
        },
    }
}

/// Asks the user whether a command may run: the session waits for the
/// answer under the submission, and the client is asked.
pub fn request_command_approval(
    state: &mut SessionState,
    sub_id: &str,
    call_id: &str,
    command: Vec<String>,
    cwd: String,
    reason: Option<String>,
) -> (r: Event)
    ensures
        final(state).pending_approvals.deep_view().contains(sub_id@),
        crate::session::exec::waits_for(*old(state), *final(state), sub_id@),
        final(state).current_task == old(state).current_task,
        final(state).plan_mode == old(state).plan_mode,
        final(state).history == old(state).history,
        r.id@ == sub_id@,
        r.msg == (EventMsg::ExecApprovalRequest {
            call_id: r.msg->ExecApprovalRequest_call_id,
            command,
            cwd,
            reason,
        }),
        r.msg->ExecApprovalRequest_call_id@ == call_id@,
{
    state.await_approval(sub_id);
    Event {
        id: String::from_str(sub_id),
        msg: EventMsg::ExecApprovalRequest {
            call_id: String::from_str(call_id),
            command,
            cwd,
            reason,
        },
    }
}

} // verus!
