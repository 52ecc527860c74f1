//! What a session tells its clients.

use crate::hooks::execution_record::HookExecutionRecord;
use crate::hooks::inspect::{HookReloadResponse, HookValidationSummary};
use crate::hooks::snapshot::HookRegistrySnapshot;
use crate::plan_mode::payload::PlanModeSessionPayload;
use crate::protocol::{AskForApproval, TurnAbortReason};
use vstd::prelude::*;

verus! {

/// The outcome of a code check that ran as a task of its own.
#[derive(Debug, PartialEq, Eq)]
pub struct ReviewOutputEvent {
    pub overall_explanation: String,
    pub structured: Option<String>,
}

/// What a client is asked before a sub-agent runs.
#[derive(Debug, PartialEq, Eq)]
pub struct SubagentApprovalRequestEvent {
    pub subagent: String,
    pub description: Option<String>,
    pub extra_instructions: Option<String>,
    pub allowed_tools: Vec<String>,
    pub requested_tools: Vec<String>,
    pub model: Option<String>,
}

#[allow(inconsistent_fields)]
#[derive(Debug)]
pub enum EventMsg {
    SessionConfigured,
    TaskStarted { model_context_window: Option<u64> },
    TaskComplete { last_agent_message: Option<String> },
    TurnAborted { reason: TurnAbortReason },
    UserMessage { message: String },
    AgentMessage { message: String },
    AgentMessageDelta { delta: String },
    AgentReasoning { text: String },
    AgentReasoningRawContent { text: String },
    AgentReasoningDelta { delta: String },
    AgentReasoningSectionBreak,
    AgentReasoningRawContentDelta { delta: String },
    Error { message: String },
    StreamError { message: String },
    BackgroundEvent { message: String },
    ExecCommandBegin { call_id: String, command: Vec<String>, cwd: String },
    ExecCommandEnd {
        call_id: String,
        stdout: String,
        stderr: String,
        aggregated_output: String,
        exit_code: i32,
        duration_ms: u64,
        formatted_output: String,
    },
    PatchApplyBegin { call_id: String, auto_approved: bool, changes: Vec<String> },
    PatchApplyEnd { call_id: String, stdout: String, stderr: String, success: bool },
    TurnDiff { unified_diff: String },
    ExecApprovalRequest { call_id: String, command: Vec<String>, cwd: String, reason: Option<String> },
    ApplyPatchApprovalRequest {
        call_id: String,
        changes: Vec<String>,
        reason: Option<String>,
        grant_root: Option<String>,
    },
    SubagentApprovalRequest(SubagentApprovalRequestEvent),
    WebSearchBegin { call_id: String },
    WebSearchEnd { call_id: String, query: String },
    TokenCount,
    PlanModeActivated { session: PlanModeSessionPayload },
    PlanModeUpdated { session: PlanModeSessionPayload },
    PlanModeExited { previous_mode: AskForApproval },
    PlanModeApplied { target_mode: AskForApproval, plan_entries: usize },
    HookListResponse { registry: HookRegistrySnapshot },
    HookExecLogResponse { records: Vec<HookExecutionRecord> },
    HookValidationResult { summary: HookValidationSummary },
    HookReloadResult { result: HookReloadResponse },
    McpListToolsResponse,
    ListCustomPromptsResponse,
    ConversationPath { path: String },
    ShutdownComplete,
    EnteredReviewMode { prompt: String },
    ExitedReviewMode { review_output: Option<ReviewOutputEvent> },
}

/// What a message says to the client, where it carries a text of the
/// model: the text by its kind, which is 0 for a message of the
/// assistant, 1 for a summary of its reasoning, 2 for raw content of
/// its reasoning, 3 for a step of a text that is being put out, 4 for
/// a step of a summary, 5 for a step of raw content, 6 for a break
/// between sections of a reasoning, 7 for the begin of a web search
/// and 8 for its end (with the query as well); `None` for any other
/// message.
pub open spec fn notice_of(msg: EventMsg) -> Option<(int, Seq<char>, Seq<char>)> {
    match msg {
        EventMsg::AgentMessage { message } => Some((0, message@, Seq::empty())),
        EventMsg::AgentReasoning { text } => Some((1, text@, Seq::empty())),
        EventMsg::AgentReasoningRawContent { text } => Some((2, text@, Seq::empty())),
        EventMsg::AgentMessageDelta { delta } => Some((3, delta@, Seq::empty())),
        EventMsg::AgentReasoningDelta { delta } => Some((4, delta@, Seq::empty())),
        EventMsg::AgentReasoningRawContentDelta { delta } => Some((5, delta@, Seq::empty())),
        EventMsg::AgentReasoningSectionBreak => Some((6, Seq::empty(), Seq::empty())),
        EventMsg::WebSearchBegin { call_id } => Some((7, call_id@, Seq::empty())),
        EventMsg::WebSearchEnd { call_id, query } => Some((8, call_id@, query@)),
        _ => None,
    }
}

/// What the messages say, one by one.
pub open spec fn notices_of(msgs: Seq<EventMsg>) -> Seq<Option<(int, Seq<char>, Seq<char>)>> {
    msgs.map_values(|m: EventMsg| notice_of(m))
}

/// An event, under the id of the submission that caused it. The empty
/// id stands for the session itself.
#[derive(Debug)]
pub struct Event {
    pub id: String,
    pub msg: EventMsg,
}

/// The id under which the session itself speaks.
pub fn initial_submit_id() -> (r: String)
    ensures
        r@.len() == 0,
{
    String::new()
}

/// How many submissions may wait to be taken up.
pub const SUBMISSION_CHANNEL_CAPACITY: usize = 64;

} // verus!
