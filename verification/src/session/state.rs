//! The mutable state of a session, and the steps that change it.

use crate::copying::copy_opt_string;
use crate::numfmt::{decimal, decimal_chars};
use crate::plan_mode::artifact::PlanArtifact;
use crate::plan_mode::capability::{ToolCapability, ToolMode};
use crate::plan_mode::config::PlanModeConfig;
use crate::plan_mode::entry::PlanEntryType;
use crate::plan_mode::payload::PlanModeSessionPayload;
use crate::plan_mode::artifact::PlanArtifactView;
use crate::plan_mode::session::{
    fresh_session, payload_of, tool_allowed, with_step, PlanModeSession, PlanModeSessionView,
    PlanModeState,
};
use crate::plan_mode::telemetry::{PlanModeEvent, PlanTelemetry};
use crate::protocol::items::{
    ContentItem, ContentItemView, InputItem, ResponseInputItem, ResponseItem, ResponseItemView,
};
use crate::protocol::{AskForApproval, ReviewDecision, SandboxPolicy, SubagentApprovalDecision};
use crate::session::history::ConversationHistory;
use crate::text::{push_all, push_str, same_text, string_of};
use vstd::prelude::*;

verus! {

/// What Plan Mode tells the model at the start of every turn.
pub open spec fn plan_prompt() -> Seq<char> {
    "Plan Mode is active. Assume every user request requires a detailed implementation plan. Before calling `update_plan`, investigate the codebase with read-only tools, inspect relevant files, and search the web or docs as needed to collect concrete facts. Use that research to draft a step-by-step plan with specific file changes, commands, risks, validation, and follow-up work. Capture the finished plan with `update_plan` only after research is complete, and do not execute or apply changes until the plan is explicitly approved."@
}

pub fn plan_mode_system_prompt() -> (r: String)
    ensures
        r@ == plan_prompt(),
{
    String::from_str(
        "Plan Mode is active. Assume every user request requires a detailed implementation plan. Before calling `update_plan`, investigate the codebase with read-only tools, inspect relevant files, and search the web or docs as needed to collect concrete facts. Use that research to draft a step-by-step plan with specific file changes, commands, risks, validation, and follow-up work. Capture the finished plan with `update_plan` only after research is complete, and do not execute or apply changes until the plan is explicitly approved.",
    )
}

/// What the model is told when a plan was approved.
pub fn plan_implementation_trigger_text() -> (r: String)
    ensures
        r@ == "(auto) Plan approved. Begin implementing the approved plan now by following the recorded steps, executing safe commands, and reporting progress as you go."@,
{
    String::from_str(
        "(auto) Plan approved. Begin implementing the approved plan now by following the recorded steps, executing safe commands, and reporting progress as you go.",
    )
}

#[derive(Clone, Copy, Debug, PartialEq, Eq, Structural)]
pub enum AgentTaskKind {
    Regular,
    Review,
    Compact,
}

/// The task that a session is working on.
#[derive(Debug, PartialEq, Eq)]
pub struct AgentTask {
    pub sub_id: String,
    pub kind: AgentTaskKind,
}

/// What holds for one turn.
#[derive(Debug, PartialEq, Eq)]
pub struct TurnContext {
    pub cwd: String,
    pub base_instructions: Option<String>,
    pub user_instructions: Option<String>,
    pub approval_policy: AskForApproval,
    pub sandbox_policy: SandboxPolicy,
    pub model: String,
    pub is_review_mode: bool,
    pub include_plan_tool: bool,
    pub include_apply_patch_tool: bool,
}

/// Whether two contexts say the same, whatever strings hold their
/// texts.
pub open spec fn same_context(a: TurnContext, b: TurnContext) -> bool {
    &&& a.cwd@ == b.cwd@
    &&& a.base_instructions.deep_view() == b.base_instructions.deep_view()
    &&& a.user_instructions.deep_view() == b.user_instructions.deep_view()
    &&& a.approval_policy == b.approval_policy
    &&& a.sandbox_policy == b.sandbox_policy
    &&& a.model@ == b.model@
    &&& a.is_review_mode == b.is_review_mode
    &&& a.include_plan_tool == b.include_plan_tool
    &&& a.include_apply_patch_tool == b.include_apply_patch_tool
}

impl Clone for TurnContext {
    fn clone(&self) -> (r: Self)
        ensures
            same_context(r, *self),
            r.cwd@ == self.cwd@,
            r.base_instructions.deep_view() == self.base_instructions.deep_view(),
            r.user_instructions.deep_view() == self.user_instructions.deep_view(),
            r.approval_policy == self.approval_policy,
            r.sandbox_policy == self.sandbox_policy,
            r.model@ == self.model@,
            r.is_review_mode == self.is_review_mode,
            r.include_plan_tool == self.include_plan_tool,
            r.include_apply_patch_tool == self.include_apply_patch_tool,
    {
        TurnContext {
            cwd: self.cwd.clone(),
            base_instructions: copy_opt_string(&self.base_instructions),
            user_instructions: copy_opt_string(&self.user_instructions),
            approval_policy: self.approval_policy,
            sandbox_policy: self.sandbox_policy,
            model: self.model.clone(),
            is_review_mode: self.is_review_mode,
            include_plan_tool: self.include_plan_tool,
            include_apply_patch_tool: self.include_apply_patch_tool,
        }
    }
}

/// A tool of an MCP server, as far as Plan Mode cares.
#[derive(Debug, PartialEq, Eq)]
pub struct McpToolInfo {
    pub qualified_name: String,
    pub name: String,
    pub read_only_hint: Option<bool>,
    pub open_world_hint: Option<bool>,
}

/// One step of a plan as the plan tool reports it.
#[derive(Clone, Copy, Debug, PartialEq, Eq, Structural)]
pub enum StepStatus {
    Pending,
    InProgress,
    Completed,
}

#[derive(Debug, PartialEq, Eq)]
pub struct PlanItemArg {
    pub step: String,
    pub status: StepStatus,
}

#[derive(Debug, PartialEq, Eq)]
pub struct UpdatePlanArgs {
    pub explanation: Option<String>,
    pub plan: Vec<PlanItemArg>,
}

/// A local image that came with an input: its path made absolute,
/// its canonical path where the file system gives one, and whether that
/// lies within the workspace.
#[derive(Debug, PartialEq, Eq)]
pub struct AttachmentFact {
    pub absolute: String,
    pub canonical: Option<String>,
    pub within_workspace: bool,
}

#[derive(Debug)]
pub struct SessionState {
    pub approved_commands: Vec<Vec<String>>,
    pub current_task: Option<AgentTask>,
    pub pending_approvals: Vec<String>,
    pub pending_subagent_approvals: Vec<String>,
    pub pending_input: Vec<ResponseInputItem>,
    pub history: ConversationHistory,
    pub next_internal_sub_id: u64,
    pub plan_mode: Option<PlanModeSession>,
    pub plan_mode_prompt_recorded: bool,
}

/// The label of a step's status, in brackets.
pub open spec fn status_mark(s: StepStatus) -> Seq<char> {
    match s {
        StepStatus::Pending => "[pending] "@,
        StepStatus::InProgress => "[in-progress] "@,
        StepStatus::Completed => "[completed] "@,
    }
}

/// The content that a user's input becomes: texts and images, in
/// order. A local image that was not loaded contributes nothing.
pub open spec fn input_content(items: Seq<InputItem>, n: int) -> Seq<ContentItemView>
    decreases n,
{
    if n <= 0 {
        Seq::empty()
    } else {
        match items[n - 1] {
            InputItem::Text { text } => input_content(items, n - 1).push(
                ContentItemView::InputText { text: text@ },
            ),
            InputItem::Image { image_url } => input_content(items, n - 1).push(
                ContentItemView::InputImage { image_url: image_url@ },
            ),
            InputItem::LocalImage { .. } => input_content(items, n - 1),
        }
    }
}

/// The message that a user's input becomes.
pub fn input_message(items: &Vec<InputItem>) -> (r: ResponseInputItem)
    ensures
        r matches ResponseInputItem::Message { role, content } && role@ == "user"@
            && content.deep_view() == input_content(items@, items@.len() as int),
{
    let mut content: Vec<ContentItem> = Vec::new();
    let mut i: usize = 0;
    proof {
        assert(content.deep_view() =~= input_content(items@, 0));
    }
    while i < items.len()
        invariant
            i <= items.len(),
            content.deep_view() == input_content(items@, i as int),
        decreases items.len() - i,
    {
        let ghost c0 = content.deep_view();
        match &items[i] {
            InputItem::Text { text } => {
                content.push(ContentItem::InputText { text: text.clone() });
                proof {
                    assert(content.deep_view() =~= c0.push(
                        ContentItemView::InputText { text: text@ },
                    ));
                }
            },
            InputItem::Image { image_url } => {
                content.push(ContentItem::InputImage { image_url: image_url.clone() });
                proof {
                    assert(content.deep_view() =~= c0.push(
                        ContentItemView::InputImage { image_url: image_url@ },
                    ));
                }
            },
            InputItem::LocalImage { .. } => {},
        }
        i += 1;
    }
    ResponseInputItem::Message { role: String::from_str("user"), content }
}

fn same_command(a: &Vec<String>, b: &Vec<String>) -> (r: bool)
    ensures
        r == (a.deep_view() == b.deep_view()),
{
    if a.len() != b.len() {
        proof {
            assert(a.deep_view().len() != b.deep_view().len());
        }
        return false;
    }
    let mut i: usize = 0;
    while i < a.len()
        invariant
            i <= a.len(),
            a.len() == b.len(),
            forall|j: int| 0 <= j < i ==> a.deep_view()[j] == b.deep_view()[j],
        decreases a.len() - i,
    {
        if !same_text(a[i].as_str(), b[i].as_str()) {
            proof {
                assert(a.deep_view()[i as int] != b.deep_view()[i as int]);
            }
            return false;
        }
        i += 1;
    }
    proof {
        assert(a.deep_view() =~= b.deep_view());
    }
    true
}

fn remove_text(v: &mut Vec<String>, item: &str) -> (found: bool)
    ensures
        found == old(v).deep_view().contains(item@),
        !final(v).deep_view().contains(item@),
        forall|x: Seq<char>|
            x != item@ ==> (final(v).deep_view().contains(x) <==> old(v).deep_view().contains(x)),
{
    let mut out: Vec<String> = Vec::new();
    let mut found = false;
    let mut i: usize = 0;
    proof {
        assert(out.deep_view() =~= Seq::<Seq<char>>::empty());
    }
    while i < v.len()
        invariant
            i <= v.len(),
            v == old(v),
            found == v.deep_view().take(i as int).contains(item@),
            !out.deep_view().contains(item@),
            forall|x: Seq<char>|
                x != item@ ==> (out.deep_view().contains(x) <==> v.deep_view().take(
                    i as int,
                ).contains(x)),
        decreases v.len() - i,
    {
        let ghost o0 = out.deep_view();
        let ghost t0 = v.deep_view().take(i as int);
        let ghost t1 = v.deep_view().take(i + 1);
        let ghost cur = v.deep_view()[i as int];
        proof {
            assert(t1 =~= t0.push(cur));
            assert forall|x: Seq<char>| t1.contains(x) <==> (t0.contains(x) || x == cur) by {
                if t1.contains(x) {
                    let w = choose|w: int| 0 <= w < t1.len() && t1[w] == x;
                    if w < t0.len() {
                        assert(t0[w] == x);
                    }
                }
                if t0.contains(x) {
                    let w = choose|w: int| 0 <= w < t0.len() && t0[w] == x;
                    assert(t1[w] == x);
                }
                if x == cur {
                    assert(t1[t0.len() as int] == x);
                }
            }
        }
        if same_text(v[i].as_str(), item) {
            found = true;
        } else {
            out.push(v[i].clone());
            proof {
                let o1 = out.deep_view();
                assert(o1 =~= o0.push(cur));
                assert forall|x: Seq<char>| o1.contains(x) <==> (o0.contains(x) || x == cur) by {
                    if o1.contains(x) {
                        let w = choose|w: int| 0 <= w < o1.len() && o1[w] == x;
                        if w < o0.len() {
                            assert(o0[w] == x);
                        }
                    }
                    if o0.contains(x) {
                        let w = choose|w: int| 0 <= w < o0.len() && o0[w] == x;
                        assert(o1[w] == x);
                    }
                    if x == cur {
                        assert(o1[o0.len() as int] == x);
                    }
                }
            }
        }
        i += 1;
    }
    proof {
        assert(v.deep_view().take(v.len() as int) =~= v.deep_view());
    }
    *v = out;
    found
}

/// What stands in front of the conversation in the input of a turn:
/// the Plan Mode prompt, as a message of the user, while Plan Mode is
/// on and its prompt was noted; else nothing.
pub open spec fn prompt_items(state: SessionState) -> Seq<ResponseItemView> {
    if state.plan_mode is Some && state.plan_mode_prompt_recorded {
        seq![
            ResponseItemView::Message {
                id: None,
                role: "user"@,
                content: seq![ContentItemView::InputText { text: plan_prompt() }],
            },
        ]
    } else {
        Seq::empty()
    }
}

impl SessionState {
    /// A session that has seen nothing yet.
    pub fn new() -> (r: Self)
        ensures
            r.approved_commands@.len() == 0,
            r.current_task is None,
            r.pending_approvals@.len() == 0,
            r.pending_subagent_approvals@.len() == 0,
            r.pending_input@.len() == 0,
            r.history.deep_view() == Seq::<ResponseItemView>::empty(),
            r.next_internal_sub_id == 0,
            r.plan_mode is None,
            !r.plan_mode_prompt_recorded,
    {
        SessionState {
            approved_commands: Vec::new(),
            current_task: None,
            pending_approvals: Vec::new(),
            pending_subagent_approvals: Vec::new(),
            pending_input: Vec::new(),
            history: ConversationHistory::new(),
            next_internal_sub_id: 0,
            plan_mode: None,
            plan_mode_prompt_recorded: false,
        }
    }

    /// Makes `task` the current task. The task that was current, if
    /// any, comes back: it is to be aborted as replaced.
    pub fn set_task(&mut self, task: AgentTask) -> (replaced: Option<AgentTask>)
        ensures
            replaced == old(self).current_task,
            final(self).current_task == Some(task),
            final(self).plan_mode == old(self).plan_mode,
            final(self).history == old(self).history,
            final(self).pending_input == old(self).pending_input,
            final(self).pending_approvals == old(self).pending_approvals,
            *final(self) == (SessionState { current_task: Some(task), ..*old(self) }),
    {
        let mut slot = Some(task);
        std::mem::swap(&mut self.current_task, &mut slot);
        slot
    }

    /// Forgets the current task if it is the one of the given
    /// submission.
    pub fn remove_task(&mut self, sub_id: &str)
        ensures
            final(self).current_task == (match old(self).current_task {
                Some(task) => if task.sub_id@ == sub_id@ {
                    None
                } else {
                    Some(task)
                },
                None => None,
            }),
            final(self).plan_mode == old(self).plan_mode,
            final(self).history == old(self).history,
            final(self).plan_mode_prompt_recorded == old(self).plan_mode_prompt_recorded,
            final(self).pending_input == old(self).pending_input,
            final(self).pending_approvals == old(self).pending_approvals,
            final(self).approved_commands == old(self).approved_commands,
            *final(self) == (SessionState { current_task: final(self).current_task, ..*old(self) }),
    {
        let is_current = match &self.current_task {
            Some(task) => same_text(task.sub_id.as_str(), sub_id),
            None => false,
        };
        if is_current {
            self.current_task = None;
        }
    }

    /// An id for a submission that the session makes itself: the
    /// prefix, a hyphen, and the number of such ids given out before.
    pub fn next_internal_sub_id_with_prefix(&mut self, prefix: &str) -> (r: String)
        ensures
            r@ == prefix@ + "-"@ + decimal(old(self).next_internal_sub_id as nat),
            final(self).next_internal_sub_id == (if old(self).next_internal_sub_id == u64::MAX {
                0
            } else {
                old(self).next_internal_sub_id + 1
            }),
            final(self).current_task == old(self).current_task,
            final(self).plan_mode == old(self).plan_mode,
            *final(self) == (SessionState {
                next_internal_sub_id: final(self).next_internal_sub_id,
                ..*old(self)
            }),
    {
        let id = self.next_internal_sub_id;
        self.next_internal_sub_id = id.wrapping_add(1);
        let mut out: Vec<char> = Vec::new();
        push_str(&mut out, prefix);
        push_str(&mut out, "-");
        let digits = decimal_chars(id);
        push_all(&mut out, &digits);
        proof {
            assert(out@ =~= prefix@ + "-"@ + decimal(id as nat));
        }
        string_of(&out)
    }

    /// An id for an automatic compaction.
    pub fn next_internal_sub_id(&mut self) -> (r: String)
        ensures
            r@ == "auto-compact"@ + "-"@ + decimal(old(self).next_internal_sub_id as nat),
    {
        self.next_internal_sub_id_with_prefix("auto-compact")
    }

    /// Notes that an answer is awaited for the submission. Says
    /// whether one was awaited already.
    pub fn await_approval(&mut self, sub_id: &str) -> (overwritten: bool)
        ensures
            overwritten == old(self).pending_approvals.deep_view().contains(sub_id@),
            final(self).pending_approvals.deep_view().contains(sub_id@),
            forall|x: Seq<char>|
                x != sub_id@ ==> (final(self).pending_approvals.deep_view().contains(x) <==> old(self).pending_approvals.deep_view().contains(x)),
            final(self).current_task == old(self).current_task,
            final(self).plan_mode == old(self).plan_mode,
            final(self).history == old(self).history,
            final(self).approved_commands == old(self).approved_commands,
            *final(self) == (SessionState {
                pending_approvals: final(self).pending_approvals,
                ..*old(self)
            }),
    {
        let found = remove_text(&mut self.pending_approvals, sub_id);
        let ghost held = self.pending_approvals.deep_view();
        self.pending_approvals.push(String::from_str(sub_id));
        proof {
            let kept = self.pending_approvals.deep_view();
            assert(kept =~= held.push(sub_id@));
            assert(kept[held.len() as int] == sub_id@);
            assert forall|x: Seq<char>| x != sub_id@ implies (kept.contains(x) <==> held.contains(
                x,
            )) by {
                if kept.contains(x) {
                    let w = choose|w: int| 0 <= w < kept.len() && kept[w] == x;
                    assert(held[w] == x);
                }
                if held.contains(x) {
                    let w = choose|w: int| 0 <= w < held.len() && held[w] == x;
                    assert(kept[w] == x);
                }
            }
        }
        found
    }

    /// Takes up the answer to an approval request: it is to be handed
    /// to whoever awaits it under the submission, if anyone does.
    pub fn notify_approval(&mut self, sub_id: &str, decision: ReviewDecision) -> (r: Option<
        ReviewDecision,
    >)
        ensures
            r == (if old(self).pending_approvals.deep_view().contains(sub_id@) {
                Some(decision)
            } else {
                None
            }),
            !final(self).pending_approvals.deep_view().contains(sub_id@),
            forall|x: Seq<char>|
                x != sub_id@ ==> (final(self).pending_approvals.deep_view().contains(x) <==> old(self).pending_approvals.deep_view().contains(x)),
            *final(self) == (SessionState {
                pending_approvals: final(self).pending_approvals,
                ..*old(self)
            }),
            final(self).current_task == old(self).current_task,
            final(self).plan_mode == old(self).plan_mode,
            final(self).history == old(self).history,
            final(self).pending_input == old(self).pending_input,
    {
        if remove_text(&mut self.pending_approvals, sub_id) {
            Some(decision)
        } else {
            None
        }
    }

    /// Notes that an answer is awaited for the sub-agent.
    pub fn await_subagent_approval(&mut self, subagent: &str) -> (overwritten: bool)
        ensures
            overwritten == old(self).pending_subagent_approvals.deep_view().contains(subagent@),
            final(self).pending_subagent_approvals.deep_view().contains(subagent@),
            forall|x: Seq<char>|
                x != subagent@ ==> (final(self).pending_subagent_approvals.deep_view().contains(x) <==> old(self).pending_subagent_approvals.deep_view().contains(x)),
            *final(self) == (SessionState {
                pending_subagent_approvals: final(self).pending_subagent_approvals,
                ..*old(self)
            }),
    {
        let found = remove_text(&mut self.pending_subagent_approvals, subagent);
        let ghost held = self.pending_subagent_approvals.deep_view();
        self.pending_subagent_approvals.push(String::from_str(subagent));
        proof {
            let kept = self.pending_subagent_approvals.deep_view();
            assert(kept =~= held.push(subagent@));
            assert(kept[held.len() as int] == subagent@);
            assert forall|x: Seq<char>| x != subagent@ implies (kept.contains(x) <==> held.contains(
                x,
            )) by {
                if kept.contains(x) {
                    let w = choose|w: int| 0 <= w < kept.len() && kept[w] == x;
                    assert(held[w] == x);
                }
                if held.contains(x) {
                    let w = choose|w: int| 0 <= w < held.len() && held[w] == x;
                    assert(kept[w] == x);
                }
            }
        }
        found
    }

    /// Takes up the answer to a request to run a sub-agent.
    pub fn notify_subagent_approval(&mut self, subagent: &str, decision: SubagentApprovalDecision) -> (r:
        Option<SubagentApprovalDecision>)
        ensures
            r == (if old(self).pending_subagent_approvals.deep_view().contains(subagent@) {
                Some(decision)
            } else {
                None
            }),
            !final(self).pending_subagent_approvals.deep_view().contains(subagent@),
            forall|x: Seq<char>|
                x != subagent@ ==> (final(self).pending_subagent_approvals.deep_view().contains(x) <==> old(self).pending_subagent_approvals.deep_view().contains(x)),
            *final(self) == (SessionState {
                pending_subagent_approvals: final(self).pending_subagent_approvals,
                ..*old(self)
            }),
            final(self).current_task == old(self).current_task,
            final(self).plan_mode == old(self).plan_mode,
            final(self).history == old(self).history,
            final(self).pending_input == old(self).pending_input,
    {
        if remove_text(&mut self.pending_subagent_approvals, subagent) {
            Some(decision)
        } else {
            None
        }
    }

    /// Whether the command was approved for the whole session.
    pub fn is_approved_command(&self, cmd: &Vec<String>) -> (r: bool)
        ensures
            r == self.approved_commands.deep_view().contains(cmd.deep_view()),
    {
        let mut i: usize = 0;
        while i < self.approved_commands.len()
            invariant
                i <= self.approved_commands.len(),
                forall|j: int|
                    0 <= j < i ==> self.approved_commands.deep_view()[j] != cmd.deep_view(),
            decreases self.approved_commands.len() - i,
        {
            if same_command(&self.approved_commands[i], cmd) {
                proof {
                    assert(self.approved_commands.deep_view()[i as int] == cmd.deep_view());
                }
                return true;
            }
            i += 1;
        }
        false
    }

    /// Remembers the command as approved for the whole session.
    pub fn add_approved_command(&mut self, cmd: Vec<String>)
        ensures
            final(self).approved_commands.deep_view().contains(cmd.deep_view()),
            final(self).approved_commands.deep_view() == (if old(self).approved_commands.deep_view().contains(cmd.deep_view()) {
                old(self).approved_commands.deep_view()
            } else {
                old(self).approved_commands.deep_view().push(cmd.deep_view())
            }),
            *final(self) == (SessionState {
                approved_commands: final(self).approved_commands,
                ..*old(self)
            }),
            forall|c: Seq<Seq<char>>|
                old(self).approved_commands.deep_view().contains(c) ==> final(self).approved_commands.deep_view().contains(c),
            final(self).current_task == old(self).current_task,
            final(self).plan_mode == old(self).plan_mode,
            final(self).history == old(self).history,
    {
        if !self.is_approved_command(&cmd) {
            let ghost a0 = self.approved_commands.deep_view();
            self.approved_commands.push(cmd);
            proof {
                let a1 = self.approved_commands.deep_view();
                assert(a1 =~= a0.push(cmd.deep_view()));
                assert(a1[a0.len() as int] == cmd.deep_view());
                assert forall|c: Seq<Seq<char>>| a0.contains(c) implies a1.contains(c) by {
                    let w = choose|w: int| 0 <= w < a0.len() && a0[w] == c;
                    assert(a1[w] == c);
                }
            }
        }
    }

    /// Hands input to the running task. Where no task is running the
    /// input comes back.
    pub fn inject_input(&mut self, input: Vec<InputItem>) -> (r: Result<(), Vec<InputItem>>)
        ensures
            match old(self).current_task {
                Some(_) => r is Ok && final(self).pending_input@.len() == old(self).pending_input@.len() + 1
                    && waiting(*final(self)) == waiting(*old(self)).push(input_item(input@)),
                None => r == Err::<(), Vec<InputItem>>(input) && final(self).pending_input == old(self).pending_input,
            },
            final(self).current_task == old(self).current_task,
            final(self).plan_mode == old(self).plan_mode,
            final(self).plan_mode_prompt_recorded == old(self).plan_mode_prompt_recorded,
            final(self).history == old(self).history,
            final(self).approved_commands == old(self).approved_commands,
            final(self).pending_approvals == old(self).pending_approvals,
            final(self).pending_subagent_approvals == old(self).pending_subagent_approvals,
            final(self).next_internal_sub_id == old(self).next_internal_sub_id,
    {
        if self.current_task.is_some() {
            let message = input_message(&input);
            self.pending_input.push(message);
            proof {
                assert(waiting(*self) =~= waiting(*old(self)).push(input_item(input@)));
            }
            Ok(())
        } else {
            Err(input)
        }
    }

    /// Takes the input that is waiting for the running task.
    pub fn get_pending_input(&mut self) -> (r: Vec<ResponseInputItem>)
        ensures
            r == old(self).pending_input,
            final(self).pending_input@.len() == 0,
            *final(self) == (SessionState { pending_input: final(self).pending_input, ..*old(self) }),
            final(self).plan_mode_prompt_recorded == old(self).plan_mode_prompt_recorded,
            final(self).approved_commands == old(self).approved_commands,
            final(self).pending_approvals == old(self).pending_approvals,
            final(self).current_task == old(self).current_task,
            final(self).plan_mode == old(self).plan_mode,
            final(self).history == old(self).history,
    {
        let mut taken: Vec<ResponseInputItem> = Vec::new();
        std::mem::swap(&mut taken, &mut self.pending_input);
        taken
    }

    /// The input of a turn: the Plan Mode prompt while Plan Mode is on
    /// and its prompt was noted, the transcript, and what is new.
    pub fn turn_input_with_history(&self, extra: Vec<ResponseItem>) -> (r: Vec<ResponseItem>)
        ensures
            r.deep_view() == prompt_items(*self) + self.history.deep_view() + extra.deep_view(),
    {
        let mut items: Vec<ResponseItem> = Vec::new();
        proof {
            assert(items.deep_view() =~= Seq::<ResponseItemView>::empty());
        }
        if self.plan_mode.is_some() && self.plan_mode_prompt_recorded {
            let mut content: Vec<ContentItem> = Vec::new();
            content.push(ContentItem::InputText { text: plan_mode_system_prompt() });
            proof {
                assert(content.deep_view() =~= seq![
                    ContentItemView::InputText { text: plan_prompt() },
                ]);
            }
            items.push(ResponseItem::Message { id: None, role: String::from_str("user"), content });
            proof {
                assert(items.deep_view() =~= seq![
                    ResponseItemView::Message {
                        id: None,
                        role: "user"@,
                        content: seq![ContentItemView::InputText { text: plan_prompt() }],
                    },
                ]);
            }
        }
        let ghost front = items.deep_view();
        let mut history = self.history.contents();
        let ghost h = history.deep_view();
        items.append(&mut history);
        let mut extra = extra;
        let ghost e = extra.deep_view();
        items.append(&mut extra);
        proof {
            assert(items.deep_view() =~= front + h + e);
        }
        items
    }

    /// Interrupts the session: nothing is awaited any more, no input
    /// waits, and no task is current. The task that was current, if
    /// any, comes back: it is to be aborted as interrupted.
    pub fn interrupt_task(&mut self) -> (aborted: Option<AgentTask>)
        ensures
            aborted == old(self).current_task,
            final(self).current_task is None,
            final(self).pending_approvals@.len() == 0,
            final(self).pending_input@.len() == 0,
            *final(self) == (SessionState {
                current_task: None,
                pending_approvals: final(self).pending_approvals,
                pending_input: final(self).pending_input,
                ..*old(self)
            }),
            final(self).plan_mode == old(self).plan_mode,
            final(self).history == old(self).history,
    {
        self.pending_approvals = Vec::new();
        self.pending_input = Vec::new();
        let mut slot: Option<AgentTask> = None;
        std::mem::swap(&mut self.current_task, &mut slot);
        slot
    }

    /// Notes that the Plan Mode prompt is to be sent, if Plan Mode is
    /// on.
    pub fn ensure_plan_mode_prompt_recorded(&mut self)
        ensures
            final(self).plan_mode_prompt_recorded == (old(self).plan_mode_prompt_recorded || old(self).plan_mode is Some),
            final(self).plan_mode == old(self).plan_mode,
            rest_kept(*old(self), *final(self)),
    {
        if self.plan_mode.is_some() && !self.plan_mode_prompt_recorded {
            self.plan_mode_prompt_recorded = true;
        }
    }

    /// Enters Plan Mode, unless it is on already.
    pub fn try_enter_plan_mode(
        &mut self,
        session_id: uuid::Uuid,
        approval_policy: AskForApproval,
        capabilities: Vec<ToolCapability>,
        config: &PlanModeConfig,
        network_enabled: bool,
    ) -> (r: Result<(PlanModeSessionPayload, PlanTelemetry), String>)
        ensures
            entered(*old(self), *final(self), approval_policy, r is Ok),
            r is Err ==> r->Err_0@ == "Plan Mode is already active"@,
            r is Ok ==> ok_val(r).1.event == PlanModeEvent::Entered && ok_val(r).1.previous_mode
                == approval_policy && ok_val(r).1.plan_entry_count == 0
                && ok_val(r).0.entered_from == approval_policy,
            r is Ok ==> final(self).plan_mode->0.deep_view() == fresh_session(
                session_id,
                approval_policy,
                capabilities@,
                config.allowed_read_only_tools.deep_view(),
                network_enabled,
                final(self).plan_mode->0.entered_at,
            ) && ok_val(r).0.deep_view() == payload_of(final(self).plan_mode->0.deep_view()),
    {
        if self.plan_mode.is_some() {
            return Err(String::from_str("Plan Mode is already active"));
        }
        let session = PlanModeSession::new(
            session_id,
            approval_policy,
            capabilities,
            config,
            network_enabled,
        );
        let telemetry = session.entered_telemetry();
        let payload = session.to_payload();
        self.plan_mode = Some(session);
        self.plan_mode_prompt_recorded = false;
        Ok((payload, telemetry))
    }

    /// Leaves Plan Mode, if it is on: the approval policy to go back to
    /// is the one that held when Plan Mode was entered.
    pub fn try_exit_plan_mode(&mut self) -> (r: Result<(AskForApproval, PlanTelemetry), String>)
        ensures
            exited(*old(self), *final(self), r),
            r is Err ==> r->Err_0@ == "Plan Mode is not active"@,
            r is Ok ==> ok_val(r).1.event == PlanModeEvent::Exit && ok_val(r).1.previous_mode
                == ok_val(r).0,
    {
        let mut slot: Option<PlanModeSession> = None;
        std::mem::swap(&mut self.plan_mode, &mut slot);
        let mut session = match slot {
            Some(s) => s,
            None => {
                return Err(String::from_str("Plan Mode is not active"));
            },
        };
        self.plan_mode_prompt_recorded = false;
        let previous_mode = session.entered_from;
        let entry_count = session.plan_artifact.entry_count();
        session.exit_plan_mode();
        Ok((previous_mode, PlanTelemetry::new(PlanModeEvent::Exit, previous_mode, entry_count)))
    }

    /// Applies the plan, if Plan Mode is on: Plan Mode ends, and the
    /// approval policy to go on with is the one asked for or, failing
    /// that, the one that held when Plan Mode was entered.
    pub fn try_apply_plan_mode(&mut self, target_mode: Option<AskForApproval>) -> (r: Result<
        (AskForApproval, usize, PlanArtifact, PlanTelemetry),
        String,
    >)
        ensures
            match old(self).plan_mode {
                None => r is Err && r->Err_0@ == "Plan Mode is not active"@ && *final(self) == *old(self),
                Some(session) => r is Ok && final(self).plan_mode is None && !final(self).plan_mode_prompt_recorded && ok_val(r).0 == (match target_mode {
                    Some(m) => m,
                    None => session.entered_from,
                }) && ok_val(r).1 == session.deep_view().plan_artifact.steps.len()
                    && ok_val(r).2.deep_view() == session.deep_view().plan_artifact
                    && ok_val(r).3.event == PlanModeEvent::ApplySuccess && ok_val(r).3.previous_mode
                    == session.entered_from && rest_kept(*old(self), *final(self)),
            },
    {
        let mut slot: Option<PlanModeSession> = None;
        std::mem::swap(&mut self.plan_mode, &mut slot);
        let mut session = match slot {
            Some(s) => s,
            None => {
                return Err(String::from_str("Plan Mode is not active"));
            },
        };
        self.plan_mode_prompt_recorded = false;
        let previous_mode = session.entered_from;
        let resolved_mode = match target_mode {
            Some(m) => m,
            None => session.entered_from,
        };
        let entry_count = session.plan_artifact.entry_count();
        session.begin_apply(Some(resolved_mode));
        let artifact = session.plan_artifact.clone();
        Ok(
            (
                resolved_mode,
                entry_count,
                artifact,
                PlanTelemetry::new(PlanModeEvent::ApplySuccess, previous_mode, entry_count),
            ),
        )
    }

    /// Records a proposed action in the plan, if Plan Mode is on.
    pub fn capture_plan_entry(
        &mut self,
        entry_type: PlanEntryType,
        summary: &str,
        details: Option<String>,
    ) -> (r: Option<(PlanTelemetry, PlanModeSessionPayload)>)
        ensures
            r is Some == old(self).plan_mode is Some,
            final(self).plan_mode is Some == old(self).plan_mode is Some,
            old(self).plan_mode is Some ==> final(self).plan_mode->0.deep_view().plan_artifact.steps.len() == old(self).plan_mode->0.deep_view().plan_artifact.steps.len() + 1 && final(self).plan_mode->0.deep_view().plan_artifact.steps.last().summary == summary@ && final(self).plan_mode->0.deep_view().plan_artifact.steps.last().entry_type == entry_type
                && final(self).plan_mode->0.deep_view().plan_artifact.steps.last().details
                == details.deep_view() && some_val(r).0.event == PlanModeEvent::RefusalCaptured,
            old(self).plan_mode matches Some(session) ==> final(self).plan_mode->0.deep_view()
                == with_step(
                session.deep_view(),
                entry_type,
                summary@,
                details.deep_view(),
                final(self).plan_mode->0.deep_view().plan_artifact.steps.last().created_at,
            ) && some_val(r).1.deep_view() == payload_of(final(self).plan_mode->0.deep_view())
                && some_val(r).0.previous_mode == session.entered_from && some_val(
                r,
            ).0.plan_entry_count == session.deep_view().plan_artifact.steps.len() + 1,
            old(self).plan_mode is None ==> *final(self) == *old(self),
            *final(self) == (SessionState { plan_mode: final(self).plan_mode, ..*old(self) }),
            final(self).current_task == old(self).current_task,
            final(self).history == old(self).history,
            final(self).approved_commands == old(self).approved_commands,
            final(self).pending_approvals == old(self).pending_approvals,
    {
        let mut slot: Option<PlanModeSession> = None;
        std::mem::swap(&mut self.plan_mode, &mut slot);
        match slot {
            Some(mut session) => {
                let telemetry = session.record_refusal(entry_type, summary, details);
                let payload = session.to_payload();
                self.plan_mode = Some(session);
                Some((telemetry, payload))
            },
            None => None,
        }
    }

    /// Takes what the plan tool reports into the plan, if Plan Mode is
    /// on: the steps with their status become the next actions, and
    /// the explanation, where there is one, the only assumption.
    pub fn apply_plan_tool_update(&mut self, update: &UpdatePlanArgs) -> (r: Option<
        PlanModeSessionPayload,
    >)
        ensures
            r is Some == old(self).plan_mode is Some,
            final(self).plan_mode is Some == old(self).plan_mode is Some,
            old(self).plan_mode is Some ==> {
                let before = old(self).plan_mode->0.deep_view().plan_artifact;
                let after = final(self).plan_mode->0.deep_view().plan_artifact;
                &&& after.next_actions.len() == update.plan@.len()
                &&& forall|i: int|
                    0 <= i < update.plan@.len() ==> #[trigger] after.next_actions[i] == status_mark(
                        update.plan@[i].status,
                    ) + update.plan@[i].step@
                &&& after.assumptions == (match update.explanation {
                    Some(e) => seq![e@],
                    None => before.assumptions,
                })
                &&& after.steps == before.steps
                &&& final(self).plan_mode->0.deep_view() == with_report(
                    old(self).plan_mode->0.deep_view(),
                    *update,
                )
                &&& r->0.deep_view() == payload_of(final(self).plan_mode->0.deep_view())
            },
            old(self).plan_mode is None ==> *final(self) == *old(self),
            *final(self) == (SessionState { plan_mode: final(self).plan_mode, ..*old(self) }),
    {
        let mut slot: Option<PlanModeSession> = None;
        std::mem::swap(&mut self.plan_mode, &mut slot);
        match slot {
            Some(mut session) => {
                let mut actions: Vec<String> = Vec::new();
                let mut i: usize = 0;
                while i < update.plan.len()
                    invariant
                        i <= update.plan.len(),
                        actions@.len() == i,
                        forall|j: int|
                            0 <= j < i ==> (#[trigger] actions@[j])@ == status_mark(
                                update.plan@[j].status,
                            ) + update.plan@[j].step@,
                    decreases update.plan.len() - i,
                {
                    let item = &update.plan[i];
                    let mut text: Vec<char> = Vec::new();
                    match item.status {
                        StepStatus::Pending => push_str(&mut text, "[pending] "),
                        StepStatus::InProgress => push_str(&mut text, "[in-progress] "),
                        StepStatus::Completed => push_str(&mut text, "[completed] "),
                    }
                    push_str(&mut text, item.step.as_str());
                    proof {
                        assert(text@ =~= status_mark(item.status) + item.step@);
                    }
                    actions.push(string_of(&text));
                    i += 1;
                }
                session.plan_artifact.next_actions = actions;
                match &update.explanation {
                    Some(e) => {
                        let mut a: Vec<String> = Vec::new();
                        a.push(e.clone());
                        proof {
                            assert(a.deep_view() =~= seq![e@]);
                        }
                        session.plan_artifact.assumptions = a;
                    },
                    None => {},
                }
                proof {
                    assert(session.plan_artifact.next_actions.deep_view() =~= reported_actions(
                        update.plan@,
                    ));
                }
                let payload = session.to_payload();
                self.plan_mode = Some(session);
                Some(payload)
            },
            None => None,
        }
    }

    /// The session as clients see it, while Plan Mode is on.
    pub fn plan_mode_payload(&self) -> (r: Option<PlanModeSessionPayload>)
        ensures
            r is Some == self.plan_mode is Some,
            r.deep_view() == (match self.plan_mode {
                Some(session) => Some(payload_of(session.deep_view())),
                None => None,
            }),
    {
        match &self.plan_mode {
            Some(session) => Some(session.to_payload()),
            None => None,
        }
    }

    /// Whether local images may come with an input while Plan Mode is
    /// on: only where attachments are allowed, and only from within the
    /// workspace.
    pub fn validate_plan_mode_attachments(&self, attachments: &Vec<AttachmentFact>, cwd: &str) -> (r:
        Result<(), String>)
        ensures
            r is Ok <==> attachments_accepted(*self, attachments@),
            match attachment_refusal(*self, attachments@, cwd@) {
                Some(text) => r is Err && r->Err_0@ == text,
                None => r is Ok,
            },
    {
        let allow = match &self.plan_mode {
            Some(session) => session.is_tool_allowed("attachments.read"),
            None => {
                return Ok(());
            },
        };
        if attachments.len() == 0 {
            return Ok(());
        }
        if !allow {
            return Err(
                String::from_str(
                    "Attachments are disabled while Plan Mode is active. Remove the files or exit Plan Mode before continuing.",
                ),
            );
        }
        let mut i: usize = 0;
        while i < attachments.len()
            invariant
                i <= attachments.len(),
                self.plan_mode is Some,
                attachment_refusal(*self, attachments@, cwd@) == first_refusal(
                    attachments@,
                    cwd@,
                    i as int,
                ),
                forall|j: int|
                    0 <= j < i ==> (#[trigger] attachments@[j]).canonical is Some
                        && attachments@[j].within_workspace,
            decreases attachments.len() - i,
        {
            let fact = &attachments[i];
            proof {
                assert(attachments@[i as int] == *fact);
            }
            match &fact.canonical {
                None => {
                    let mut m: Vec<char> = Vec::new();
                    push_str(&mut m, "Plan Mode could not verify attachment path ");
                    push_str(&mut m, fact.absolute.as_str());
                    push_str(&mut m, ". Remove the attachment or exit Plan Mode.");
                    return Err(string_of(&m));
                },
                Some(canonical) => {
                    if !fact.within_workspace {
                        let mut m: Vec<char> = Vec::new();
                        push_str(&mut m, "Plan Mode only permits attachments from ");
                        push_str(&mut m, cwd);
                        push_str(&mut m, ". Remove ");
                        push_str(&mut m, canonical.as_str());
                        push_str(&mut m, " or exit Plan Mode before continuing.");
                        return Err(string_of(&m));
                    }
                },
            }
            i += 1;
        }
        Ok(())
    }
}

pub open spec fn ok_val<T, E>(r: Result<T, E>) -> T {
    r->Ok_0
}

pub open spec fn some_val<T>(r: Option<T>) -> T {
    r->0
}

/// The next actions that the steps of a report of the plan tool
/// become: each step behind the mark of its status.
pub open spec fn reported_actions(plan: Seq<PlanItemArg>) -> Seq<Seq<char>> {
    plan.map_values(|p: PlanItemArg| status_mark(p.status) + p.step@)
}

/// A session with a report of the plan tool taken into its plan: the
/// steps of the report are the next actions, and its explanation,
/// where it has one, is the only assumption.
pub open spec fn with_report(
    session: PlanModeSessionView,
    update: UpdatePlanArgs,
) -> PlanModeSessionView {
    PlanModeSessionView {
        plan_artifact: PlanArtifactView {
            next_actions: reported_actions(update.plan@),
            assumptions: match update.explanation {
                Some(e) => seq![e@],
                None => session.plan_artifact.assumptions,
            },
            ..session.plan_artifact
        },
        ..session
    }
}

/// The input that waits for the running task, as the items that it
/// becomes in the conversation.
pub open spec fn waiting(state: SessionState) -> Seq<ResponseItemView> {
    state.pending_input@.map_values(|a: ResponseInputItem| crate::protocol::items::answer_item(a))
}

/// The message of the user that an input becomes.
pub open spec fn input_item(input: Seq<InputItem>) -> ResponseItemView {
    ResponseItemView::Message {
        id: None,
        role: "user"@,
        content: input_content(input, input.len() as int),
    }
}

/// What is said of the first attachment, from the place given on,
/// whose path could not be made canonical or lies outside the
/// workspace; nothing where there is none.
pub open spec fn first_refusal(attachments: Seq<AttachmentFact>, cwd: Seq<char>, from: int) -> Option<
    Seq<char>,
>
    decreases attachments.len() - from,
{
    if from < 0 || from >= attachments.len() {
        None
    } else {
        match attachments[from].canonical {
            None => Some(
                "Plan Mode could not verify attachment path "@ + attachments[from].absolute@
                    + ". Remove the attachment or exit Plan Mode."@,
            ),
            Some(canonical) => if !attachments[from].within_workspace {
                Some(
                    "Plan Mode only permits attachments from "@ + cwd + ". Remove "@ + canonical@
                        + " or exit Plan Mode before continuing."@,
                )
            } else {
                first_refusal(attachments, cwd, from + 1)
            },
        }
    }
}

/// What is said of attachments that are not accepted; nothing where
/// they are.
pub open spec fn attachment_refusal(
    state: SessionState,
    attachments: Seq<AttachmentFact>,
    cwd: Seq<char>,
) -> Option<Seq<char>> {
    match state.plan_mode {
        None => None,
        Some(session) => if attachments.len() == 0 {
            None
        } else if !tool_allowed(session.deep_view(), "attachments.read"@) {
            Some(
                "Attachments are disabled while Plan Mode is active. Remove the files or exit Plan Mode before continuing."@,
            )
        } else {
            first_refusal(attachments, cwd, 0)
        },
    }
}

/// Attachments are accepted where Plan Mode is off, or there are none,
/// or attachments are allowed and each lies within the workspace.
pub open spec fn attachments_accepted(state: SessionState, attachments: Seq<AttachmentFact>) -> bool {
    match state.plan_mode {
        None => true,
        Some(session) => attachments.len() == 0 || (tool_allowed(
            session.deep_view(),
            "attachments.read"@,
        ) && forall|j: int|
            0 <= j < attachments.len() ==> (#[trigger] attachments[j]).canonical is Some
                && attachments[j].within_workspace),
    }
}

/// Whether a session holds what it held before, Plan Mode and the
/// note of its prompt apart: the task, the conversation, the approved
/// commands, the approvals and the input that are waiting, and the
/// count of its own submission ids.
pub open spec fn rest_kept(before: SessionState, after: SessionState) -> bool {
    &&& after.current_task == before.current_task
    &&& after.history == before.history
    &&& after.approved_commands == before.approved_commands
    &&& after.pending_approvals == before.pending_approvals
    &&& after.pending_subagent_approvals == before.pending_subagent_approvals
    &&& after.pending_input == before.pending_input
    &&& after.next_internal_sub_id == before.next_internal_sub_id
}

/// What entering Plan Mode does to a session: where Plan Mode was off,
/// it is on and active now, entered from the given approval policy,
/// with its prompt still to be noted; where it was on, nothing changes.
pub open spec fn entered(
    before: SessionState,
    after: SessionState,
    policy: AskForApproval,
    succeeded: bool,
) -> bool {
    &&& succeeded == before.plan_mode is None
    &&& rest_kept(before, after)
    &&& if succeeded {
        &&& after.plan_mode is Some
        &&& after.plan_mode->0.entered_from == policy
        &&& after.plan_mode->0.state == PlanModeState::Active
        &&& !after.plan_mode_prompt_recorded
    } else {
        after == before
    }
}

/// What leaving Plan Mode does to a session: where Plan Mode was on, it
/// is off now, and the answer is the approval policy from which it was
/// entered; where it was off, nothing changes.
pub open spec fn exited(
    before: SessionState,
    after: SessionState,
    r: Result<(AskForApproval, PlanTelemetry), String>,
) -> bool {
    match before.plan_mode {
        Some(session) => r is Ok && ok_val(r).0 == session.entered_from && after.plan_mode is None
            && !after.plan_mode_prompt_recorded && rest_kept(before, after),
        None => r is Err && after == before,
    }
}

/// Entering Plan Mode and leaving it again gives back the approval
/// policy that held before, and leaves Plan Mode off.
pub proof fn lemma_enter_then_exit_restores(
    before: SessionState,
    inside: SessionState,
    after: SessionState,
    policy: AskForApproval,
    r: Result<(AskForApproval, PlanTelemetry), String>,
)
    requires
        before.plan_mode is None,
        entered(before, inside, policy, true),
        exited(inside, after, r),
    ensures
        r is Ok,
        ok_val(r).0 == policy,
        after.plan_mode is None,
        after.history == before.history,
        after.current_task == before.current_task,
{
}

/// What capabilities say: the id of each and whether it needs the
/// network.
pub open spec fn capability_views(capabilities: Seq<ToolCapability>) -> Seq<(Seq<char>, bool)> {
    capabilities.map_values(|c: ToolCapability| (c.id@, c.requires_network))
}

/// Whether a capability of the id is among the capabilities.
pub open spec fn knows(capabilities: Seq<(Seq<char>, bool)>, id: Seq<char>) -> bool {
    exists|i: int| 0 <= i < capabilities.len() && (#[trigger] capabilities[i]).0 == id
}

/// The capabilities with one more, unless one of its id is among them
/// already.
pub open spec fn with_capability(
    capabilities: Seq<(Seq<char>, bool)>,
    id: Seq<char>,
    requires_network: bool,
) -> Seq<(Seq<char>, bool)> {
    if knows(capabilities, id) {
        capabilities
    } else {
        capabilities.push((id, requires_network))
    }
}

/// The capabilities that the first `n` tools give: each tool that is
/// marked as read-only, under its qualified name and under its own;
/// it needs the network where it is marked as reaching into the open
/// world.
pub open spec fn capabilities_upto(tools: Seq<McpToolInfo>, n: int) -> Seq<(Seq<char>, bool)>
    decreases n,
{
    if n <= 0 {
        Seq::empty()
    } else {
        let before = capabilities_upto(tools, n - 1);
        let tool = tools[n - 1];
        if tool.read_only_hint == Some(true) {
            let net = tool.open_world_hint == Some(true);
            with_capability(with_capability(before, tool.qualified_name@, net), tool.name@, net)
        } else {
            before
        }
    }
}

/// The capabilities that Plan Mode knows of, given the tools of the
/// MCP servers: those of the tools, and the reading of attachments,
/// which needs the network.
pub open spec fn known_capabilities(tools: Seq<McpToolInfo>) -> Seq<(Seq<char>, bool)> {
    with_capability(capabilities_upto(tools, tools.len() as int), "attachments.read"@, true)
}

/// The capabilities that Plan Mode knows of: each read-only tool of an
/// MCP server under its qualified name and under its own name, each
/// name once, and the reading of attachments, which needs the network.
pub fn plan_mode_capabilities(tools: &Vec<McpToolInfo>) -> (r: Vec<ToolCapability>)
    ensures
        capability_views(r@) == known_capabilities(tools@),
        r@.len() >= 1,
        r@.last().id@ == "attachments.read"@ || exists|i: int|
            0 <= i < r@.len() && (#[trigger] r@[i]).id@ == "attachments.read"@,
        forall|i: int| 0 <= i < r@.len() ==> (#[trigger] r@[i]).mode == ToolMode::ReadOnly,
        forall|i: int, j: int| 0 <= i < j < r@.len() ==> (#[trigger] r@[i]).id@ != (#[trigger] r@[j]).id@,
{
    let mut capabilities: Vec<ToolCapability> = Vec::new();
    let mut i: usize = 0;
    proof {
        assert(capability_views(capabilities@) =~= capabilities_upto(tools@, 0));
    }
    while i < tools.len()
        invariant
            i <= tools.len(),
            forall|a: int|
                0 <= a < capabilities@.len() ==> (#[trigger] capabilities@[a]).mode
                    == ToolMode::ReadOnly,
            forall|a: int, b: int|
                0 <= a < b < capabilities@.len() ==> (#[trigger] capabilities@[a]).id@ != (
                #[trigger] capabilities@[b]).id@,
            capability_views(capabilities@) == capabilities_upto(tools@, i as int),
        decreases tools.len() - i,
    {
        let tool = &tools[i];
        let read_only = match tool.read_only_hint {
            Some(b) => b,
            None => false,
        };
        if read_only {
            let requires_network = match tool.open_world_hint {
                Some(b) => b,
                None => false,
            };
            push_capability(&mut capabilities, tool.qualified_name.as_str(), requires_network);
            push_capability(&mut capabilities, tool.name.as_str(), requires_network);
        }
        i += 1;
    }
    push_capability(&mut capabilities, "attachments.read", true);
    capabilities
}

fn push_capability(capabilities: &mut Vec<ToolCapability>, id: &str, requires_network: bool)
    requires
        forall|a: int|
            0 <= a < old(capabilities)@.len() ==> (#[trigger] old(capabilities)@[a]).mode
                == ToolMode::ReadOnly,
        forall|a: int, b: int|
            0 <= a < b < old(capabilities)@.len() ==> (#[trigger] old(capabilities)@[a]).id@ != (
            #[trigger] old(capabilities)@[b]).id@,
    ensures
        forall|a: int|
            0 <= a < final(capabilities)@.len() ==> (#[trigger] final(capabilities)@[a]).mode
                == ToolMode::ReadOnly,
        forall|a: int, b: int|
            0 <= a < b < final(capabilities)@.len() ==> (#[trigger] final(capabilities)@[a]).id@
                != (#[trigger] final(capabilities)@[b]).id@,
        final(capabilities)@.len() >= 1,
        exists|i: int|
            0 <= i < final(capabilities)@.len() && (#[trigger] final(capabilities)@[i]).id@ == id@,
        capability_views(final(capabilities)@) == with_capability(
            capability_views(old(capabilities)@),
            id@,
            requires_network,
        ),
{
    let mut i: usize = 0;
    while i < capabilities.len()
        invariant
            i <= capabilities.len(),
            capabilities == old(capabilities),
            forall|j: int| 0 <= j < i ==> (#[trigger] capabilities@[j]).id@ != id@,
            forall|a: int|
                0 <= a < capabilities@.len() ==> (#[trigger] capabilities@[a]).mode
                    == ToolMode::ReadOnly,
            forall|a: int, b: int|
                0 <= a < b < capabilities@.len() ==> (#[trigger] capabilities@[a]).id@ != (
                #[trigger] capabilities@[b]).id@,
        decreases capabilities.len() - i,
    {
        if same_text(capabilities[i].id.as_str(), id) {
            proof {
                assert(capabilities@[i as int].id@ == id@);
                assert(capability_views(capabilities@)[i as int].0 == id@);
                assert(knows(capability_views(capabilities@), id@));
            }
            return ;
        }
        i += 1;
    }
    proof {
        let views = capability_views(capabilities@);
        assert forall|j: int| 0 <= j < views.len() implies (#[trigger] views[j]).0 != id@ by {
            assert(capabilities@[j].id@ != id@);
        }
        assert(!knows(views, id@));
    }
    capabilities.push(
        ToolCapability::new(id, ToolMode::ReadOnly).with_network_requirement(requires_network),
    );
    proof {
        assert(capability_views(capabilities@) =~= capability_views(old(capabilities)@).push(
            (id@, requires_network),
        ));
        let n = capabilities@.len() - 1;
        assert(capabilities@[n].id@ == id@);
        assert forall|a: int, b: int| 0 <= a < b < capabilities@.len() implies (
        #[trigger] capabilities@[a]).id@ != (#[trigger] capabilities@[b]).id@ by {
            if b < n {
                assert(capabilities@[a] == old(capabilities)@[a]);
                assert(capabilities@[b] == old(capabilities)@[b]);
            } else {
                assert(capabilities@[a] == old(capabilities)@[a]);
            }
        }
        assert forall|a: int| 0 <= a < capabilities@.len() implies (
        #[trigger] capabilities@[a]).mode == ToolMode::ReadOnly by {
            if a < n {
                assert(capabilities@[a] == old(capabilities)@[a]);
            }
        }
    }
}

} // verus!
