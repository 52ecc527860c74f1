//! The safety pipeline of a command, step by step: the Plan Mode gate,
//! the hook before the tool, approval, the run, the hook after the
//! tool, and the retry without a sandbox.

use crate::copying::{copy_opt_string, copy_strings};
use crate::hooks::decision::{blocks, HookDecision};
use crate::hooks::execution_record::HookExecutionRecord;
use crate::hooks::executor::{guard_decision, HookExecutor, PreToolUsePayload};
use crate::lines::{join, joined, string_texts};
use crate::numfmt::decimal_chars;
use crate::plan_mode::entry::PlanEntryType;
use crate::protocol::events::{Event, EventMsg};
use crate::protocol::items::ResponseInputItem;
use crate::session::replies::{is_reply, reply, reply_about};
use crate::protocol::{AskForApproval, ReviewDecision, SafetyCheck, SandboxType};
use crate::session::exec_output::{format_exec_output_str, ExecToolCallOutput};
use crate::session::state::SessionState;
use crate::session::trace::{begins, lemma_open_after_push, open_after, open_then};
use crate::text::{push_all, push_str, string_of};
use vstd::prelude::*;

verus! {

/// A patch that a command applies.
#[derive(Debug, PartialEq, Eq)]
pub struct ApplyPatchCommandContext {
    pub user_explicitly_approved_this_action: bool,
    pub changes: Vec<String>,
}

/// What a command is known by.
#[derive(Debug, PartialEq, Eq)]
pub struct ExecCommandContext {
    pub sub_id: String,
    pub call_id: String,
    pub command_for_display: Vec<String>,
    pub cwd: String,
    pub apply_patch: Option<ApplyPatchCommandContext>,
}

/// What is to be run.
#[derive(Debug, PartialEq, Eq)]
pub struct ExecParams {
    pub command: Vec<String>,
    pub cwd: String,
    pub timeout_ms: Option<u64>,
    pub env: Vec<(String, String)>,
    pub with_escalated_permissions: Option<bool>,
    pub justification: Option<String>,
}

impl Clone for ExecParams {
    fn clone(&self) -> (r: Self)
        ensures
            r.command.deep_view() == self.command.deep_view(),
            r.cwd@ == self.cwd@,
            r.timeout_ms == self.timeout_ms,
            r.env.deep_view() == self.env.deep_view(),
            r.with_escalated_permissions == self.with_escalated_permissions,
            r.justification.deep_view() == self.justification.deep_view(),
    {
        ExecParams {
            command: copy_strings(&self.command),
            cwd: self.cwd.clone(),
            timeout_ms: self.timeout_ms,
            env: crate::hooks::definition::copy_pairs(&self.env),
            with_escalated_permissions: self.with_escalated_permissions,
            justification: copy_opt_string(&self.justification),
        }
    }
}

/// One run of a command: what to run, in which sandbox, and whether
/// its output is streamed to the client while it runs.
#[derive(Debug, PartialEq, Eq)]
pub struct ExecInvokeArgs {
    pub params: ExecParams,
    pub sandbox_type: SandboxType,
    pub stream_stdout: bool,
}

/// What a run came to.
#[derive(Debug, PartialEq, Eq)]
pub enum ExecResult {
    Completed(ExecToolCallOutput),
    Timeout { output: ExecToolCallOutput, message: String },
    SandboxDenied(String),
    SandboxFailed(String),
    Failed(String),
}

/// What the model is told of a command: a text, or the output of a run
/// (which the caller writes as JSON together with its exit code and
/// its duration).
#[derive(Debug, PartialEq, Eq)]
pub enum ExecReply {
    Text { content: String, success: Option<bool> },
    Output { formatted_output: String, exit_code: i32, duration_ms: u64, success: bool },
}

/// What the caller is to do.
#[derive(Debug)]
pub enum ExecAction {
    Emit(Event),
    Log(HookExecutionRecord),
    Run(ExecInvokeArgs),
}

/// How far a command has come.
#[derive(Debug, PartialEq, Eq)]
pub enum ExecStage {
    AwaitingApproval,
    Running { sandbox_type: SandboxType, retry: bool },
    AwaitingRetryApproval,
    Done(ExecReply),
}

/// A command on its way through the pipeline.
#[derive(Debug)]
pub struct ExecCall {
    pub ctx: ExecCommandContext,
    pub params: ExecParams,
    pub stage: ExecStage,
}

/// The events among the actions, in order.
pub open spec fn emitted(actions: Seq<ExecAction>) -> Seq<Event>
    decreases actions.len(),
{
    if actions.len() == 0 {
        Seq::empty()
    } else {
        match actions.last() {
            ExecAction::Emit(e) => emitted(actions.drop_last()).push(e),
            _ => emitted(actions.drop_last()),
        }
    }
}

/// What a command has begun and not ended yet: while it runs, its run
/// (or the application of its patch), under its call id.
pub open spec fn stage_open(ctx: ExecCommandContext, stage: ExecStage) -> Option<(bool, Seq<char>)> {
    match stage {
        ExecStage::Running { .. } => Some((ctx.apply_patch is Some, ctx.call_id@)),
        _ => None,
    }
}

/// The name of a sandbox.
pub open spec fn sandbox_name(s: SandboxType) -> Seq<char> {
    match s {
        SandboxType::Unconfined => "None"@,
        SandboxType::MacosSeatbelt => "MacosSeatbelt"@,
        SandboxType::LinuxSeccomp => "LinuxSeccomp"@,
    }
}

/// The safety of a command as it is acted on: a patch that the user
/// approved explicitly runs without a sandbox; of any other command
/// the assessment stands.
pub open spec fn effective_safety(ctx: ExecCommandContext, assessed: SafetyCheck) -> SafetyCheck {
    match ctx.apply_patch {
        Some(patch) => if patch.user_explicitly_approved_this_action {
            SafetyCheck::AutoApprove { sandbox_type: SandboxType::Unconfined }
        } else {
            assessed
        },
        None => assessed,
    }
}

fn push_event(actions: &mut Vec<ExecAction>, id: &str, msg: EventMsg)
    ensures
        final(actions)@.len() == old(actions)@.len() + 1,
        final(actions)@.drop_last() == old(actions)@,
        old(actions)@.is_prefix_of(final(actions)@),
        final(actions)@.last() is Emit,
        final(actions)@.last()->Emit_0.msg == msg,
        final(actions)@.last()->Emit_0.id@ == id@,
        emitted(final(actions)@) == emitted(old(actions)@).push(final(actions)@.last()->Emit_0),
        heard(final(actions)@) == heard(old(actions)@).push((id@, exec_event_view(msg))),
        forall|o: Option<(bool, Seq<char>)>| #[trigger]
            open_after(o, emitted(final(actions)@)) == open_then(
                open_after(o, emitted(old(actions)@)),
                final(actions)@.last()->Emit_0,
            ),
{
    let ghost a0 = actions@;
    actions.push(ExecAction::Emit(Event { id: String::from_str(id), msg }));
    proof {
        assert(actions@.drop_last() =~= a0);
        assert(heard(actions@) =~= heard(a0).push((id@, exec_event_view(msg))));
        assert forall|o: Option<(bool, Seq<char>)>| #[trigger]
            open_after(o, emitted(actions@)) == open_then(
                open_after(o, emitted(a0)),
                actions@.last()->Emit_0,
            ) by {
            lemma_open_after_push(o, emitted(a0), actions@.last()->Emit_0);
        }
    }
}

fn push_log(actions: &mut Vec<ExecAction>, record: Option<HookExecutionRecord>)
    ensures
        final(actions)@ == (match record {
            Some(r) => old(actions)@.push(ExecAction::Log(r)),
            None => old(actions)@,
        }),
        emitted(final(actions)@) == emitted(old(actions)@),
        old(actions)@.is_prefix_of(final(actions)@),
{
    match record {
        Some(r) => {
            let ghost a0 = actions@;
            actions.push(ExecAction::Log(r));
            proof {
                assert(actions@.drop_last() =~= a0);
            }
        },
        None => {},
    }
}

fn reply_for(output: &ExecToolCallOutput, success: bool) -> (r: ExecReply)
    ensures
        r matches ExecReply::Output { formatted_output, exit_code, duration_ms, success: s }
            && formatted_output@ == crate::session::exec_output::formatted_output(
            output.deep_view(),
        ) && exit_code == output.exit_code && duration_ms == output.duration_ms && s == success,
{
    ExecReply::Output {
        formatted_output: format_exec_output_str(output),
        exit_code: output.exit_code,
        duration_ms: output.duration_ms,
        success,
    }
}

fn failure_output(message: String, exit_code: i32) -> (r: ExecToolCallOutput)
    ensures
        r.exit_code == exit_code,
        r.stdout@.len() == 0,
        r.stderr@ == message@,
        r.aggregated_output@ == message@,
        r.duration_ms == 0,
        !r.timed_out,
{
    ExecToolCallOutput {
        exit_code,
        stdout: String::new(),
        stderr: message.clone(),
        aggregated_output: message,
        duration_ms: 0,
        timed_out: false,
    }
}

/// The text under which a command is shown and audited: its words on
/// one line.
pub fn raw_command_of(ctx: &ExecCommandContext) -> (r: String)
    ensures
        r@ == joined(ctx.command_for_display.deep_view(), " "@),
{
    proof {
        assert(string_texts(ctx.command_for_display@) =~= ctx.command_for_display.deep_view());
    }
    join(&ctx.command_for_display, " ")
}

/// Whether a session waits for an approval under the id of a
/// submission where it did not before, and is otherwise as before.
pub open spec fn waits_for(before: SessionState, after: SessionState, sub_id: Seq<char>) -> bool {
    &&& after.pending_approvals.deep_view().contains(sub_id)
    &&& forall|x: Seq<char>|
        x != sub_id ==> (after.pending_approvals.deep_view().contains(x)
            <==> before.pending_approvals.deep_view().contains(x))
    &&& after == (SessionState { pending_approvals: after.pending_approvals, ..before })
}

/// Whether a session holds a command as approved for the rest of the
/// session, and is otherwise as before.
pub open spec fn approves(
    before: SessionState,
    after: SessionState,
    command: Seq<Seq<char>>,
) -> bool {
    &&& after.approved_commands.deep_view() == (if before.approved_commands.deep_view().contains(
        command,
    ) {
        before.approved_commands.deep_view()
    } else {
        before.approved_commands.deep_view().push(command)
    })
    &&& after == (SessionState { approved_commands: after.approved_commands, ..before })
}

/// Whether the user's answer lets the command run.
pub open spec fn lets_run(decision: ReviewDecision) -> bool {
    decision is Approved || decision is ApprovedForSession
}

/// What an event of the pipeline says to the client.
pub enum ExecEventView {
    Begin { call_id: Seq<char>, command: Seq<Seq<char>>, cwd: Seq<char> },
    PatchBegin { call_id: Seq<char>, auto_approved: bool, changes: Seq<Seq<char>> },
    End {
        call_id: Seq<char>,
        stdout: Seq<char>,
        stderr: Seq<char>,
        aggregated_output: Seq<char>,
        exit_code: i32,
        duration_ms: u64,
        formatted_output: Seq<char>,
    },
    PatchEnd { call_id: Seq<char>, stdout: Seq<char>, stderr: Seq<char>, success: bool },
    TurnDiff { unified_diff: Seq<char> },
    Note { message: Seq<char> },
    ApprovalRequest {
        call_id: Seq<char>,
        command: Seq<Seq<char>>,
        cwd: Seq<char>,
        reason: Option<Seq<char>>,
    },
    PlanUpdated { session: crate::plan_mode::payload::PlanModeSessionPayloadView },
    Other,
}

/// What a message of the pipeline says.
pub open spec fn exec_event_view(msg: EventMsg) -> ExecEventView {
    match msg {
        EventMsg::ExecCommandBegin { call_id, command, cwd } => ExecEventView::Begin {
            call_id: call_id@,
            command: command.deep_view(),
            cwd: cwd@,
        },
        EventMsg::PatchApplyBegin { call_id, auto_approved, changes } => ExecEventView::PatchBegin {
            call_id: call_id@,
            auto_approved,
            changes: changes.deep_view(),
        },
        EventMsg::ExecCommandEnd {
            call_id,
            stdout,
            stderr,
            aggregated_output,
            exit_code,
            duration_ms,
            formatted_output,
        } => ExecEventView::End {
            call_id: call_id@,
            stdout: stdout@,
            stderr: stderr@,
            aggregated_output: aggregated_output@,
            exit_code,
            duration_ms,
            formatted_output: formatted_output@,
        },
        EventMsg::PatchApplyEnd { call_id, stdout, stderr, success } => ExecEventView::PatchEnd {
            call_id: call_id@,
            stdout: stdout@,
            stderr: stderr@,
            success,
        },
        EventMsg::TurnDiff { unified_diff } => ExecEventView::TurnDiff {
            unified_diff: unified_diff@,
        },
        EventMsg::BackgroundEvent { message } => ExecEventView::Note { message: message@ },
        EventMsg::ExecApprovalRequest { call_id, command, cwd, reason } => ExecEventView::ApprovalRequest {
            call_id: call_id@,
            command: command.deep_view(),
            cwd: cwd@,
            reason: reason.deep_view(),
        },
        EventMsg::PlanModeUpdated { session } => ExecEventView::PlanUpdated {
            session: session.deep_view(),
        },
        _ => ExecEventView::Other,
    }
}

/// What the client is told by the actions, in order: each event with
/// the id of the submission that it bears.
pub open spec fn heard(actions: Seq<ExecAction>) -> Seq<(Seq<char>, ExecEventView)> {
    emitted(actions).map_values(|e: Event| (e.id@, exec_event_view(e.msg)))
}

/// Whether Plan Mode records a command instead of letting it run: it
/// is on, and the command is a patch or a shell command that its
/// allow-list does not let through.
pub open spec fn plan_captures(state: SessionState, ctx: ExecCommandContext) -> bool {
    state.plan_mode matches Some(session) && (ctx.apply_patch is Some
        || !crate::plan_mode::session::shell_allowed(
        session.deep_view(),
        ctx.command_for_display.deep_view(),
    ))
}

/// What the client is told of a command that Plan Mode recorded: the
/// session of Plan Mode with its plan as it is now, and what was
/// recorded.
pub open spec fn captured_heard(ctx: ExecCommandContext, after: SessionState) -> Seq<
    (Seq<char>, ExecEventView),
> {
    seq![
        (
            ctx.sub_id@,
            ExecEventView::PlanUpdated {
                session: crate::plan_mode::session::payload_of(after.plan_mode->0.deep_view()),
            },
        ),
        (ctx.sub_id@, ExecEventView::Note { message: captured_message(ctx) }),
    ]
}

/// Whether a session has recorded a command in the plan of Plan Mode
/// and is otherwise as before: the plan has one more step, a file
/// change for a patch and a command for any other, that says what the
/// command was.
pub open spec fn recorded_in_plan(
    before: SessionState,
    after: SessionState,
    ctx: ExecCommandContext,
) -> bool {
    &&& before.plan_mode is Some
    &&& after.plan_mode is Some
    &&& after.plan_mode->0.deep_view() == crate::plan_mode::session::with_step(
        before.plan_mode->0.deep_view(),
        if ctx.apply_patch is Some {
            PlanEntryType::FileChange
        } else {
            PlanEntryType::Command
        },
        captured_summary(ctx),
        captured_details(ctx),
        after.plan_mode->0.deep_view().plan_artifact.steps.last().created_at,
    )
    &&& after == (SessionState { plan_mode: after.plan_mode, ..before })
}

/// The event that tells of the begin of a run, or of the application
/// of a patch.
pub open spec fn begin_view(ctx: ExecCommandContext) -> ExecEventView {
    match ctx.apply_patch {
        Some(patch) => ExecEventView::PatchBegin {
            call_id: ctx.call_id@,
            auto_approved: !patch.user_explicitly_approved_this_action,
            changes: patch.changes.deep_view(),
        },
        None => ExecEventView::Begin {
            call_id: ctx.call_id@,
            command: ctx.command_for_display.deep_view(),
            cwd: ctx.cwd@,
        },
    }
}

/// The event that asks the user whether a command may run.
pub open spec fn approval_view(
    ctx: ExecCommandContext,
    params: ExecParams,
    reason: Option<Seq<char>>,
) -> ExecEventView {
    ExecEventView::ApprovalRequest {
        call_id: ctx.call_id@,
        command: params.command.deep_view(),
        cwd: params.cwd@,
        reason,
    }
}

/// What the client is told when a command is taken up: of the capture
/// where Plan Mode records it; nothing where the hook before the tool
/// stops it or its safety rejects it; of its begin where it runs at
/// once; and the question to the user where the user is asked.
pub open spec fn start_heard(
    state: SessionState,
    after: SessionState,
    ctx: ExecCommandContext,
    params: ExecParams,
    assessed: SafetyCheck,
) -> Seq<(Seq<char>, ExecEventView)> {
    if plan_captures(state, ctx) {
        captured_heard(ctx, after)
    } else if blocks(guard_decision(joined(ctx.command_for_display.deep_view(), " "@))) {
        Seq::empty()
    } else {
        match effective_safety(ctx, assessed) {
            SafetyCheck::AutoApprove { .. } => seq![(ctx.sub_id@, begin_view(ctx))],
            SafetyCheck::AskUser => seq![
                (ctx.sub_id@, approval_view(ctx, params, params.justification.deep_view())),
            ],
            SafetyCheck::Reject { .. } => Seq::empty(),
        }
    }
}

/// The output that a run left: its own, or one that says what went
/// wrong, under the exit code -1.
pub open spec fn result_output(
    result: ExecResult,
) -> crate::session::exec_output::ExecToolCallOutputView {
    match result {
        ExecResult::Completed(o) => o.deep_view(),
        ExecResult::Timeout { output, .. } => output.deep_view(),
        ExecResult::SandboxDenied(m) => failure_view(m@),
        ExecResult::SandboxFailed(m) => failure_view(m@),
        ExecResult::Failed(m) => failure_view(m@),
    }
}

/// An output that holds a message as its error output, under the exit
/// code -1.
pub open spec fn failure_view(
    message: Seq<char>,
) -> crate::session::exec_output::ExecToolCallOutputView {
    crate::session::exec_output::ExecToolCallOutputView {
        exit_code: -1i32,
        stdout: Seq::empty(),
        stderr: message,
        aggregated_output: message,
        duration_ms: 0,
        timed_out: false,
    }
}

/// The event that tells of the end of a run: for a patch with the
/// mark of success, which an exit code of 0 gives; for any other
/// command with all of its output.
pub open spec fn end_view(
    ctx: ExecCommandContext,
    output: crate::session::exec_output::ExecToolCallOutputView,
) -> ExecEventView {
    if ctx.apply_patch is Some {
        ExecEventView::PatchEnd {
            call_id: ctx.call_id@,
            stdout: output.stdout,
            stderr: output.stderr,
            success: output.exit_code == 0,
        }
    } else {
        ExecEventView::End {
            call_id: ctx.call_id@,
            stdout: output.stdout,
            stderr: output.stderr,
            aggregated_output: output.aggregated_output,
            exit_code: output.exit_code,
            duration_ms: output.duration_ms,
            formatted_output: crate::session::exec_output::formatted_output(output),
        }
    }
}

/// What the client is told after a run: of its end; then, for a
/// patch, the diff of the turn where there is one; and, where the
/// user is asked whether to retry without a sandbox, what failed and
/// the question.
pub open spec fn result_heard(
    call: ExecCall,
    result: ExecResult,
    turn_diff: Option<Seq<char>>,
    policy: AskForApproval,
) -> Seq<(Seq<char>, ExecEventView)> {
    seq![(call.ctx.sub_id@, end_view(call.ctx, result_output(result)))] + (match turn_diff {
        Some(d) => if call.ctx.apply_patch is Some {
            seq![(call.ctx.sub_id@, ExecEventView::TurnDiff { unified_diff: d })]
        } else {
            Seq::empty()
        },
        None => Seq::empty(),
    }) + (if retry_offered(result, call.stage->Running_retry, policy) {
        seq![
            (
                call.ctx.sub_id@,
                ExecEventView::Note {
                    message: "Execution failed: "@ + (match result {
                        ExecResult::SandboxDenied(m) => m@,
                        ExecResult::SandboxFailed(m) => m@,
                        _ => Seq::empty(),
                    }),
                },
            ),
            (
                call.ctx.sub_id@,
                approval_view(
                    call.ctx,
                    call.params,
                    Some("command failed; retry without sandbox?"@),
                ),
            ),
        ]
    } else {
        Seq::empty()
    })
}

/// The name under which Plan Mode records a command: its words on
/// one line, or a general name where it has no words.
pub open spec fn captured_label(ctx: ExecCommandContext) -> Seq<char> {
    let raw = joined(ctx.command_for_display.deep_view(), " "@);
    if raw.len() == 0 {
        "command execution"@
    } else {
        raw
    }
}

/// The summary of what Plan Mode records in place of a command: for a
/// patch, how many files it changes; for any other command, its name.
pub open spec fn captured_summary(ctx: ExecCommandContext) -> Seq<char> {
    match ctx.apply_patch {
        Some(patch) => if patch.changes@.len() == 0 {
            "apply_patch"@
        } else {
            "apply_patch affecting "@ + crate::numfmt::decimal(patch.changes@.len() as nat) + (
            if patch.changes@.len() == 1 {
                " file"@
            } else {
                " files"@
            })
        },
        None => captured_label(ctx),
    }
}

/// The details of what Plan Mode records in place of a command: for a
/// patch, the files that it changes, if any; for any other command,
/// the command and its working directory.
pub open spec fn captured_details(ctx: ExecCommandContext) -> Option<Seq<char>> {
    match ctx.apply_patch {
        Some(patch) => if patch.changes@.len() == 0 {
            None
        } else {
            Some("files: "@ + joined(patch.changes.deep_view(), ", "@))
        },
        None => Some("command: "@ + captured_label(ctx) + "\ncwd: "@ + ctx.cwd@),
    }
}

/// What the client and the model are told of a command that Plan Mode
/// recorded instead of letting it run.
pub open spec fn captured_message(ctx: ExecCommandContext) -> Seq<char> {
    (if ctx.apply_patch is Some {
        "Plan Mode captured proposed file changes ("@ + captured_summary(ctx) + ")"@
    } else {
        "Plan Mode captured command `"@ + captured_summary(ctx) + "`"@
    }) + (match captured_details(ctx) {
        Some(d) => "\n"@ + d,
        None => Seq::empty(),
    })
}

/// The output that stands for a command that Plan Mode recorded: the
/// exit code -1, and what was told as the error output.
pub open spec fn captured_output(
    ctx: ExecCommandContext,
) -> crate::session::exec_output::ExecToolCallOutputView {
    crate::session::exec_output::ExecToolCallOutputView {
        exit_code: -1i32,
        stdout: Seq::empty(),
        stderr: captured_message(ctx),
        aggregated_output: captured_message(ctx),
        duration_ms: 0,
        timed_out: false,
    }
}

fn capture_in_plan(
    state: &mut SessionState,
    ctx: &ExecCommandContext,
    actions: &mut Vec<ExecAction>,
) -> (reply: ExecReply)
    requires
        old(state).plan_mode is Some,
    ensures
        final(state).plan_mode is Some,
        final(state).plan_mode->0.deep_view().plan_artifact.steps.len() == old(state).plan_mode->0.deep_view().plan_artifact.steps.len() + 1,
        final(state).plan_mode->0.deep_view().plan_artifact.steps.last().entry_type == (
        if ctx.apply_patch is Some {
            PlanEntryType::FileChange
        } else {
            PlanEntryType::Command
        }),
        final(state).plan_mode->0.deep_view().plan_artifact.steps.last().summary
            == captured_summary(*ctx),
        final(state).plan_mode->0.deep_view().plan_artifact.steps.last().details
            == captured_details(*ctx),
        shows_failure(reply, captured_output(*ctx)),
        heard(final(actions)@) == heard(old(actions)@) + captured_heard(*ctx, *final(state)),
        recorded_in_plan(*old(state), *final(state), *ctx),
        final(actions)@.len() == old(actions)@.len() + 2,
        final(actions)@[old(actions)@.len() as int] matches ExecAction::Emit(e) && e.msg
            is PlanModeUpdated,
        is_note(final(actions)@.last(), captured_message(*ctx)),
        final(state).current_task == old(state).current_task,
        final(state).history == old(state).history,
        final(state).approved_commands == old(state).approved_commands,
        final(state).pending_approvals == old(state).pending_approvals,
        failed_with(ExecStage::Done(reply), -1),
        old(actions)@.is_prefix_of(final(actions)@),
        forall|o: Option<(bool, Seq<char>)>| #[trigger]
            open_after(o, emitted(final(actions)@)) == open_after(o, emitted(old(actions)@)),
{
    let raw = raw_command_of(ctx);
    let label = if raw.as_str().is_empty() {
        String::from_str("command execution")
    } else {
        raw
    };
    let (entry_type, summary, details) = match &ctx.apply_patch {
        Some(patch) => {
            let n = patch.changes.len();
            let summary = if n == 0 {
                String::from_str("apply_patch")
            } else {
                let mut s: Vec<char> = Vec::new();
                push_str(&mut s, "apply_patch affecting ");
                let digits = decimal_chars(n as u64);
                push_all(&mut s, &digits);
                if n == 1 {
                    push_str(&mut s, " file");
                } else {
                    push_str(&mut s, " files");
                }
                string_of(&s)
            };
            let details = if n == 0 {
                None
            } else {
                let mut d: Vec<char> = Vec::new();
                push_str(&mut d, "files: ");
                let files = join(&patch.changes, ", ");
                proof {
                    assert(string_texts(patch.changes@) =~= patch.changes.deep_view());
                }
                push_str(&mut d, files.as_str());
                Some(string_of(&d))
            };
            proof {
                assert(summary@ =~= captured_summary(*ctx));
                assert(details.deep_view() =~= captured_details(*ctx));
            }
            (PlanEntryType::FileChange, summary, details)
        },
        None => {
            let mut d: Vec<char> = Vec::new();
            push_str(&mut d, "command: ");
            push_str(&mut d, label.as_str());
            push_str(&mut d, "\ncwd: ");
            push_str(&mut d, ctx.cwd.as_str());
            let details = Some(string_of(&d));
            proof {
                assert(label@ == captured_summary(*ctx));
                assert(d@ =~= "command: "@ + captured_label(*ctx) + "\ncwd: "@ + ctx.cwd@);
            }
            (PlanEntryType::Command, label, details)
        },
    };
    let mut message: Vec<char> = Vec::new();
    match entry_type {
        PlanEntryType::FileChange => {
            push_str(&mut message, "Plan Mode captured proposed file changes (");
            push_str(&mut message, summary.as_str());
            push_str(&mut message, ")");
        },
        _ => {
            push_str(&mut message, "Plan Mode captured command `");
            push_str(&mut message, summary.as_str());
            push_str(&mut message, "`");
        },
    }
    match &details {
        Some(d) => {
            push_str(&mut message, "\n");
            push_str(&mut message, d.as_str());
        },
        None => {},
    }
    let text = string_of(&message);
    proof {
        assert(text@ =~= captured_message(*ctx));
    }
    match state.capture_plan_entry(entry_type, summary.as_str(), details) {
        Some(pair) => {
            let (_telemetry, payload) = pair;
            push_event(actions, ctx.sub_id.as_str(), EventMsg::PlanModeUpdated { session: payload });
        },
        None => {},
    }
    push_event(actions, ctx.sub_id.as_str(), EventMsg::BackgroundEvent { message: text.clone() });
    let output = failure_output(text, -1);
    proof {
        assert(output.stdout@ =~= Seq::<char>::empty());
        assert(output.deep_view() == captured_output(*ctx));
        assert(heard(actions@) =~= heard(old(actions)@) + captured_heard(*ctx, *state));
    }
    reply_for(&output, false)
}

/// Whether an action has the audit record of a tool's result written:
/// the record of the hook after the tool, under the scope of the
/// executor, for the command and with the exit code given.
pub open spec fn logs_post_tool(
    action: ExecAction,
    hooks: HookExecutor,
    command: Seq<char>,
    exit_code: i32,
) -> bool {
    action matches ExecAction::Log(r) && crate::hooks::executor::decision_record(
        r.deep_view(),
        crate::hooks::events::HookEvent::PostToolUse,
        hooks.default_scope.deep_view(),
        "codex.posttool.audit"@,
        command,
        crate::hooks::decision::HookDecisionView {
            exit_code,
            ..crate::hooks::decision::allow_decision()
        },
    )
}

/// Whether an action has the audit record of a decision before a tool
/// written, for the command given.
pub open spec fn logs_pre_tool(action: ExecAction, hooks: HookExecutor, command: Seq<char>) -> bool {
    action matches ExecAction::Log(r) && crate::hooks::executor::decision_record(
        r.deep_view(),
        crate::hooks::events::HookEvent::PreToolUse,
        hooks.default_scope.deep_view(),
        "codex.pretool.guard"@,
        command,
        guard_decision(command),
    )
}

/// The exit code that a run came to: that of its output, and -1 where
/// it left none.
pub open spec fn result_exit_code(result: ExecResult) -> i32 {
    match result {
        ExecResult::Completed(o) => o.exit_code,
        ExecResult::Timeout { output, .. } => output.exit_code,
        _ => -1i32,
    }
}

/// What a decision that stops a command says: its message and its
/// message of the system, each where it has one, on lines of their
/// own; and where it has neither, that the hook before the tool
/// stopped the command, with the outcome.
pub open spec fn blocked_message(d: crate::hooks::decision::HookDecisionView) -> Seq<char> {
    match (d.message, d.system_message) {
        (Some(m), Some(s)) => m + "\n"@ + s,
        (Some(m), None) => m,
        (None, Some(s)) => s,
        (None, None) => "Command blocked by pre-tool hook (outcome: "@
            + crate::hooks::decision::outcome_name(d.decision) + ")."@,
    }
}

/// The output that stands for a command that a decision stopped: the
/// decision's exit code, but at least 1, and what the decision says
/// as the error output.
pub open spec fn blocked_output(
    d: crate::hooks::decision::HookDecisionView,
) -> crate::session::exec_output::ExecToolCallOutputView {
    crate::session::exec_output::ExecToolCallOutputView {
        exit_code: if d.exit_code < 1 {
            1
        } else {
            d.exit_code
        },
        stdout: Seq::empty(),
        stderr: blocked_message(d),
        aggregated_output: blocked_message(d),
        duration_ms: 0,
        timed_out: false,
    }
}

/// Whether a reply is the output given, as the model is shown it, and
/// a failure.
pub open spec fn shows_failure(
    reply: ExecReply,
    output: crate::session::exec_output::ExecToolCallOutputView,
) -> bool {
    reply matches ExecReply::Output { formatted_output, exit_code, duration_ms, success }
        && formatted_output@ == crate::session::exec_output::formatted_output(output) && exit_code
        == output.exit_code && duration_ms == output.duration_ms && !success
}

/// The gates before a command: Plan Mode may record it instead of
/// letting it run, and the hook before the tool may stop it. Gives the
/// reply to a command that was stopped, and nothing for one that may
/// go on.
fn guard(
    state: &mut SessionState,
    hooks: &HookExecutor,
    ctx: &ExecCommandContext,
    actions: &mut Vec<ExecAction>,
) -> (stopped: Option<ExecReply>)
    ensures
        heard(final(actions)@) == heard(old(actions)@) + (if plan_captures(*old(state), *ctx) {
            captured_heard(*ctx, *final(state))
        } else {
            Seq::empty()
        }),
        plan_captures(*old(state), *ctx) ==> recorded_in_plan(*old(state), *final(state), *ctx)
            && final(actions)@.len() == old(actions)@.len() + 2,
        !plan_captures(*old(state), *ctx) ==> *final(state) == *old(state),
        forall|o: Option<(bool, Seq<char>)>| #[trigger]
            open_after(o, emitted(final(actions)@)) == open_after(o, emitted(old(actions)@)),
        old(actions)@.is_prefix_of(final(actions)@),
        stopped matches Some(reply) ==> reply is Output && !reply->Output_success,
        !plan_captures(*old(state), *ctx) ==> (stopped is Some <==> blocks(
            guard_decision(joined(ctx.command_for_display.deep_view(), " "@)),
        )),
        !plan_captures(*old(state), *ctx) ==> emitted(final(actions)@) == emitted(old(actions)@),
        !plan_captures(*old(state), *ctx) && hooks.log_writer is None ==> final(actions)@ == old(actions)@,
        !plan_captures(*old(state), *ctx) && hooks.log_writer is Some ==> final(actions)@.len() == old(actions)@.len() + (if stopped is Some {
            2int
        } else {
            1int
        }) && logs_pre_tool(
            final(actions)@[old(actions)@.len() as int],
            *hooks,
            joined(ctx.command_for_display.deep_view(), " "@),
        ),
        !plan_captures(*old(state), *ctx) && hooks.log_writer is Some && stopped is Some
            ==> logs_post_tool(
            final(actions)@.last(),
            *hooks,
            joined(ctx.command_for_display.deep_view(), " "@),
            2,
        ),
        !plan_captures(*old(state), *ctx) && stopped is Some ==> failed_with(
            ExecStage::Done(stopped->0),
            2,
        ) && shows_failure(
            stopped->0,
            blocked_output(guard_decision(joined(ctx.command_for_display.deep_view(), " "@))),
        ),
        plan_captures(*old(state), *ctx) ==> stopped is Some && failed_with(
            ExecStage::Done(stopped->0),
            -1,
        ) && shows_failure(stopped->0, captured_output(*ctx)) && final(state).plan_mode->0.deep_view().plan_artifact.steps.len() == old(state).plan_mode->0.deep_view().plan_artifact.steps.len() + 1 && final(state).plan_mode->0.deep_view().plan_artifact.steps.last().summary == captured_summary(*ctx),
        final(state).current_task == old(state).current_task,
        final(state).history == old(state).history,
        final(state).plan_mode is Some == old(state).plan_mode is Some,
        final(state).approved_commands == old(state).approved_commands,
        final(state).pending_approvals == old(state).pending_approvals,
{
    let gate = match &state.plan_mode {
        Some(session) => {
            if ctx.apply_patch.is_some() {
                Some(false)
            } else {
                Some(session.is_shell_allowed(&ctx.command_for_display))
            }
        },
        None => None,
    };
    match gate {
        Some(false) => {
            let reply = capture_in_plan(state, ctx, actions);
            return Some(reply);
        },
        _ => {},
    }
    let raw = raw_command_of(ctx);
    let payload = PreToolUsePayload {
        tool_name: String::from_str("exec_command"),
        command: raw.clone(),
    };
    let decision = match hooks.evaluate_pre_tool_use(&payload) {
        Ok(d) => d,
        Err(_) => HookDecision::default(),
    };
    push_log(actions, hooks.pre_tool_record(&payload, &decision));
    if decision.is_blocking() {
        let mut parts: Vec<String> = Vec::new();
        match &decision.message {
            Some(m) => {
                parts.push(m.clone());
            },
            None => {},
        }
        match &decision.system_message {
            Some(m) => {
                parts.push(m.clone());
            },
            None => {},
        }
        if parts.len() == 0 {
            let mut m: Vec<char> = Vec::new();
            push_str(&mut m, "Command blocked by pre-tool hook (outcome: ");
            let name = crate::hooks::decision::format_outcome(decision.decision);
            push_str(&mut m, name.as_str());
            push_str(&mut m, ").");
            parts.push(string_of(&m));
        }
        let combined = join(&parts, "\n");
        proof {
            let d = decision.deep_view();
            let texts = string_texts(parts@);
            match (d.message, d.system_message) {
                (Some(m), Some(sm)) => {
                    assert(texts =~= seq![m, sm]);
                    assert(texts.drop_last() =~= seq![m]);
                },
                (Some(m), None) => {
                    assert(texts =~= seq![m]);
                },
                (None, Some(sm)) => {
                    assert(texts =~= seq![sm]);
                },
                (None, None) => {
                    assert(texts.len() == 1);
                },
            }
            assert(combined@ == blocked_message(d));
        }
        let exit_code = if decision.exit_code < 1 {
            1
        } else {
            decision.exit_code
        };
        let output = failure_output(combined, exit_code);
        proof {
            assert(output.stdout@ =~= Seq::<char>::empty());
            assert(output.deep_view() == blocked_output(decision.deep_view()));
        }
        push_log(actions, hooks.record_post_tool_use(raw.as_str(), exit_code));
        return Some(reply_for(&output, false));
    }
    None
}

/// Announces the begin of a run and asks for the run.
fn launch(
    ctx: &ExecCommandContext,
    params: &ExecParams,
    sandbox_type: SandboxType,
    retry: bool,
    actions: &mut Vec<ExecAction>,
) -> (stage: ExecStage)
    requires
        open_after(None, emitted(old(actions)@)) == Some(None::<(bool, Seq<char>)>),
    ensures
        open_after(None, emitted(final(actions)@)) == Some(stage_open(*ctx, stage)),
        stage == (ExecStage::Running { sandbox_type, retry }),
        final(actions)@.len() == old(actions)@.len() + 2,
        old(actions)@.is_prefix_of(final(actions)@),
        runs(final(actions)@.last(), *params, sandbox_type, ctx.apply_patch is None),
        heard(final(actions)@) == heard(old(actions)@).push((ctx.sub_id@, begin_view(*ctx))),
        final(actions)@[final(actions)@.len() - 2] matches ExecAction::Emit(e) && begins(e) == Some(
            (ctx.apply_patch is Some, ctx.call_id@),
        ),
{
    let msg = match &ctx.apply_patch {
        Some(patch) => EventMsg::PatchApplyBegin {
            call_id: ctx.call_id.clone(),
            auto_approved: !patch.user_explicitly_approved_this_action,
            changes: copy_strings(&patch.changes),
        },
        None => EventMsg::ExecCommandBegin {
            call_id: ctx.call_id.clone(),
            command: copy_strings(&ctx.command_for_display),
            cwd: ctx.cwd.clone(),
        },
    };
    push_event(actions, ctx.sub_id.as_str(), msg);
    let ghost a0 = actions@;
    actions.push(
        ExecAction::Run(
            ExecInvokeArgs {
                params: params.clone(),
                sandbox_type,
                stream_stdout: ctx.apply_patch.is_none(),
            },
        ),
    );
    proof {
        assert(actions@.drop_last() =~= a0);
    }
    ExecStage::Running { sandbox_type, retry }
}

/// Whether an action asks for a run of the command in the sandbox
/// given, with its output streamed or not.
pub open spec fn runs(
    action: ExecAction,
    params: ExecParams,
    sandbox_type: SandboxType,
    stream_stdout: bool,
) -> bool {
    action matches ExecAction::Run(args) && (args.sandbox_type == sandbox_type && args.stream_stdout
        == stream_stdout && args.params.command.deep_view() == params.command.deep_view()
        && args.params.cwd@ == params.cwd@ && args.params.timeout_ms == params.timeout_ms)
}

fn ask_for_approval(
    state: &mut SessionState,
    ctx: &ExecCommandContext,
    params: &ExecParams,
    reason: Option<String>,
    actions: &mut Vec<ExecAction>,
)
    ensures
        final(state).pending_approvals.deep_view().contains(ctx.sub_id@),
        waits_for(*old(state), *final(state), ctx.sub_id@),
        final(state).current_task == old(state).current_task,
        final(state).history == old(state).history,
        final(state).plan_mode == old(state).plan_mode,
        final(state).approved_commands == old(state).approved_commands,
        forall|o: Option<(bool, Seq<char>)>| #[trigger]
            open_after(o, emitted(final(actions)@)) == open_after(o, emitted(old(actions)@)),
        old(actions)@.is_prefix_of(final(actions)@),
        final(actions)@.len() == old(actions)@.len() + 1,
        asks_approval(final(actions)@.last(), *ctx, reason.deep_view()),
        heard(final(actions)@) == heard(old(actions)@).push(
            (ctx.sub_id@, approval_view(*ctx, *params, reason.deep_view())),
        ),
{
    state.await_approval(ctx.sub_id.as_str());
    push_event(
        actions,
        ctx.sub_id.as_str(),
        EventMsg::ExecApprovalRequest {
            call_id: ctx.call_id.clone(),
            command: copy_strings(&params.command),
            cwd: params.cwd.clone(),
            reason,
        },
    );
}

fn said(lead: &str, detail: &str, success: Option<bool>) -> (r: ExecStage)
    ensures
        says(r, lead@ + detail@, success),
{
    let mut m: Vec<char> = Vec::new();
    push_str(&mut m, lead);
    push_str(&mut m, detail);
    ExecStage::Done(ExecReply::Text { content: string_of(&m), success })
}

/// Whether a command is done with the text given as its answer,
/// marked as given.
pub open spec fn says(stage: ExecStage, text: Seq<char>, mark: Option<bool>) -> bool {
    stage matches ExecStage::Done(ExecReply::Text { content, success }) && content@ == text
        && success == mark
}

/// What the model is told of a first run that the sandbox kept from
/// succeeding, where the user is not asked to retry.
pub open spec fn sandbox_failure_text(sandbox_type: SandboxType, error: Seq<char>) -> Seq<char> {
    "failed in sandbox "@ + sandbox_name(sandbox_type) + " with execution error: "@ + error
}

/// Whether a command is done with the output of a failure under the
/// exit code given.
pub open spec fn failed_with(stage: ExecStage, code: int) -> bool {
    stage matches ExecStage::Done(ExecReply::Output { exit_code, success, .. }) && exit_code
        == code && !success
}

/// Whether an action asks the user to approve a command, with the
/// reason given.
pub open spec fn asks_approval(
    action: ExecAction,
    ctx: ExecCommandContext,
    reason: Option<Seq<char>>,
) -> bool {
    action matches ExecAction::Emit(e) && (e.id@ == ctx.sub_id@ && (
    e.msg matches EventMsg::ExecApprovalRequest { call_id, reason: r, .. } && call_id@
        == ctx.call_id@ && r.deep_view() == reason))
}

/// Whether an action tells the client the text given, as a note.
pub open spec fn is_note(action: ExecAction, text: Seq<char>) -> bool {
    action matches ExecAction::Emit(e) && (e.msg matches EventMsg::BackgroundEvent { message }
        && message@ == text)
}

/// The reply to a command that the user did not let run.
pub open spec fn rejected_by_user(r: ExecReply) -> bool {
    r matches ExecReply::Text { content, success } && content@ == "exec command rejected by user"@
        && success is None
}

fn user_rejection() -> (r: ExecReply)
    ensures
        rejected_by_user(r),
{
    ExecReply::Text { content: String::from_str("exec command rejected by user"), success: None }
}

/// Takes up a command. Plan Mode and the hook before the tool come
/// first: a command that either stops is done, and nobody is asked.
/// Else, by its safety (see `effective_safety`), it runs at once in
/// the sandbox that the assessment names, or the user is asked first,
/// or it is rejected with the reason given.
pub fn start_exec(
    state: &mut SessionState,
    hooks: &HookExecutor,
    ctx: ExecCommandContext,
    params: ExecParams,
    assessed: SafetyCheck,
) -> (r: (Vec<ExecAction>, ExecCall))
    ensures
        r.1.ctx == ctx,
        r.1.params == params,
        heard(r.0@) == start_heard(*old(state), *final(state), ctx, params, assessed),
        r.0@.len() == heard(r.0@).len() + (if r.1.stage is Running {
            1int
        } else {
            0int
        }) + (if hooks.log_writer is Some && !plan_captures(*old(state), ctx) {
            if blocks(guard_decision(joined(ctx.command_for_display.deep_view(), " "@))) {
                2int
            } else {
                1int
            }
        } else {
            0int
        }),
        plan_captures(*old(state), ctx) ==> recorded_in_plan(*old(state), *final(state), ctx)
            && r.0@.len() == 2,
        !plan_captures(*old(state), ctx) && hooks.log_writer is Some ==> logs_pre_tool(
            r.0@[0],
            *hooks,
            joined(ctx.command_for_display.deep_view(), " "@),
        ),
        !plan_captures(*old(state), ctx) ==> (if r.1.stage is AwaitingApproval {
            waits_for(*old(state), *final(state), ctx.sub_id@)
        } else {
            *final(state) == *old(state)
        }),
        open_after(None, emitted(r.0@)) == Some(stage_open(r.1.ctx, r.1.stage)),
        !plan_captures(*old(state), ctx) && blocks(
            guard_decision(joined(ctx.command_for_display.deep_view(), " "@)),
        ) ==> failed_with(r.1.stage, 2) && shows_failure(
            r.1.stage->Done_0,
            blocked_output(guard_decision(joined(ctx.command_for_display.deep_view(), " "@))),
        ) && emitted(r.0@).len() == 0 && (hooks.log_writer is Some ==> r.0@.len() == 2
            && logs_pre_tool(r.0@[0], *hooks, joined(ctx.command_for_display.deep_view(), " "@))
            && logs_post_tool(
            r.0@[1],
            *hooks,
            joined(ctx.command_for_display.deep_view(), " "@),
            2,
        )),
        plan_captures(*old(state), ctx) ==> failed_with(r.1.stage, -1)
            && shows_failure(r.1.stage->Done_0, captured_output(ctx)) && final(state).plan_mode is Some && final(state).plan_mode->0.deep_view().plan_artifact.steps.len()
            == old(state).plan_mode->0.deep_view().plan_artifact.steps.len() + 1 && final(state).plan_mode->0.deep_view().plan_artifact.steps.last().summary == captured_summary(ctx),
        !plan_captures(*old(state), ctx) && !blocks(
            guard_decision(joined(ctx.command_for_display.deep_view(), " "@)),
        ) ==> (match effective_safety(ctx, assessed) {
            SafetyCheck::AutoApprove { sandbox_type } => r.1.stage == (ExecStage::Running {
                sandbox_type,
                retry: false,
            }) && r.0@.len() >= 1 && runs(r.0@.last(), params, sandbox_type, ctx.apply_patch is None),
            SafetyCheck::AskUser => r.1.stage is AwaitingApproval && r.0@.len() >= 1
                && asks_approval(r.0@.last(), ctx, params.justification.deep_view()),
            SafetyCheck::Reject { reason } => rejected_for(r.1.stage, reason@),
        }),
        r.1.stage is Running ==> effective_safety(ctx, assessed) is AutoApprove && r.1.stage == (
        ExecStage::Running {
            sandbox_type: effective_safety(ctx, assessed)->AutoApprove_sandbox_type,
            retry: false,
        }),
        r.1.stage is AwaitingApproval ==> effective_safety(ctx, assessed) is AskUser && final(state).pending_approvals.deep_view().contains(ctx.sub_id@),
        r.1.stage is Running || r.1.stage is AwaitingApproval || r.1.stage is Done,
        final(state).current_task == old(state).current_task,
        final(state).history == old(state).history,
        final(state).approved_commands == old(state).approved_commands,
{
    let mut actions: Vec<ExecAction> = Vec::new();
    let stage = match guard(state, hooks, &ctx, &mut actions) {
        Some(reply) => ExecStage::Done(reply),
        None => {
            let explicit = match &ctx.apply_patch {
                Some(patch) => patch.user_explicitly_approved_this_action,
                None => false,
            };
            let safety = if explicit {
                SafetyCheck::AutoApprove { sandbox_type: SandboxType::Unconfined }
            } else {
                assessed
            };
            match safety {
                SafetyCheck::AutoApprove { sandbox_type } => launch(
                    &ctx,
                    &params,
                    sandbox_type,
                    false,
                    &mut actions,
                ),
                SafetyCheck::AskUser => {
                    ask_for_approval(
                        state,
                        &ctx,
                        &params,
                        copy_opt_string(&params.justification),
                        &mut actions,
                    );
                    ExecStage::AwaitingApproval
                },
                SafetyCheck::Reject { reason } => {
                    let mut m: Vec<char> = Vec::new();
                    push_str(&mut m, "exec command rejected: ");
                    push_str(&mut m, reason.as_str());
                    ExecStage::Done(ExecReply::Text { content: string_of(&m), success: None })
                },
            }
        },
    };
    (actions, ExecCall { ctx, params, stage })
}

/// Whether a command is done as rejected for the reason given.
pub open spec fn rejected_for(stage: ExecStage, reason: Seq<char>) -> bool {
    stage matches ExecStage::Done(ExecReply::Text { content, success }) && content@
        == "exec command rejected: "@ + reason && success is None
}

/// Takes up the user's answer to the question whether a command may
/// run. An approved command runs without a sandbox; approved for the
/// session, it is remembered as well; otherwise it is rejected.
pub fn on_approval(
    state: &mut SessionState,
    call: ExecCall,
    decision: ReviewDecision,
) -> (r: (Vec<ExecAction>, ExecCall))
    requires
        call.stage is AwaitingApproval,
    ensures
        r.1.ctx == call.ctx,
        open_after(None, emitted(r.0@)) == Some(stage_open(r.1.ctx, r.1.stage)),
        match decision {
            ReviewDecision::Approved => r.1.stage is Running && *final(state) == *old(state),
            ReviewDecision::ApprovedForSession => r.1.stage is Running && final(state).approved_commands.deep_view().contains(call.params.command.deep_view())
                && approves(*old(state), *final(state), call.params.command.deep_view()),
            _ => r.1.stage matches ExecStage::Done(reply) && rejected_by_user(reply) && *final(state) == *old(state),
        },
        r.1.stage is Running ==> r.1.stage == (ExecStage::Running {
            sandbox_type: SandboxType::Unconfined,
            retry: false,
        }) && r.0@.len() >= 1 && runs(
            r.0@.last(),
            call.params,
            SandboxType::Unconfined,
            call.ctx.apply_patch is None,
        ),
        r.1.params == call.params,
        heard(r.0@) == (if lets_run(decision) {
            seq![(call.ctx.sub_id@, begin_view(call.ctx))]
        } else {
            Seq::empty()
        }),
        r.0@.len() == (if lets_run(decision) {
            2int
        } else {
            0int
        }),
        final(state).current_task == old(state).current_task,
        final(state).history == old(state).history,
        final(state).plan_mode == old(state).plan_mode,
{
    let mut actions: Vec<ExecAction> = Vec::new();
    let ExecCall { ctx, params, stage: _ } = call;
    let stage = match decision {
        ReviewDecision::Approved => launch(
            &ctx,
            &params,
            SandboxType::Unconfined,
            false,
            &mut actions,
        ),
        ReviewDecision::ApprovedForSession => {
            state.add_approved_command(copy_strings(&params.command));
            launch(&ctx, &params, SandboxType::Unconfined, false, &mut actions)
        },
        _ => ExecStage::Done(user_rejection()),
    };
    (actions, ExecCall { ctx, params, stage })
}

/// What a run leaves behind where it did not complete: the output up
/// to the timeout, or an output that says what went wrong.
fn output_of(result: &ExecResult) -> (r: ExecToolCallOutput)
    ensures
        match *result {
            ExecResult::Completed(o) => r.deep_view() == o.deep_view(),
            ExecResult::Timeout { output, .. } => r.deep_view() == output.deep_view(),
            ExecResult::SandboxDenied(m) => r.exit_code == -1 && r.stderr@ == m@,
            ExecResult::SandboxFailed(m) => r.exit_code == -1 && r.stderr@ == m@,
            ExecResult::Failed(m) => r.exit_code == -1 && r.stderr@ == m@,
        },
        r.deep_view() == result_output(*result),
{
    let r = match result {
        ExecResult::Completed(o) => o.clone(),
        ExecResult::Timeout { output, .. } => output.clone(),
        ExecResult::SandboxDenied(m) => failure_output(m.clone(), -1),
        ExecResult::SandboxFailed(m) => failure_output(m.clone(), -1),
        ExecResult::Failed(m) => failure_output(m.clone(), -1),
    };
    proof {
        if !(result is Completed) && !(result is Timeout) {
            assert(r.stdout@ =~= Seq::<char>::empty());
        }
    }
    r
}

/// What follows a run that the sandbox kept from succeeding: after a
/// retry, and where the user is not asked, the model is told; else
/// the user is asked whether to retry.
pub open spec fn sandbox_outcome(
    after: ExecStage,
    before: ExecStage,
    policy: AskForApproval,
    error: Seq<char>,
) -> bool {
    if before->Running_retry {
        says(after, "retry failed: "@ + error, None)
    } else if policy == AskForApproval::Never || policy == AskForApproval::OnRequest {
        says(after, sandbox_failure_text(before->Running_sandbox_type, error), Some(false))
    } else {
        after is AwaitingRetryApproval
    }
}

/// Whether the user is asked to retry without a sandbox: only after a
/// first run that the sandbox denied or failed, and only under an
/// approval policy that lets the user be asked at that point.
pub open spec fn retry_offered(result: ExecResult, retry: bool, policy: AskForApproval) -> bool {
    !retry && (result is SandboxDenied || result is SandboxFailed) && (policy
        == AskForApproval::UnlessTrusted || policy == AskForApproval::OnFailure)
}

/// Takes up what a run came to. The hook after the tool is told, and
/// the end of the run is announced, whatever came of it; after the end
/// of a patch the diff of the turn follows, where there is one. Then
/// the model is answered, or the user is asked whether to retry
/// without a sandbox.
pub fn on_result(
    state: &mut SessionState,
    hooks: &HookExecutor,
    policy: AskForApproval,
    call: ExecCall,
    result: ExecResult,
    turn_diff: Option<String>,
) -> (r: (Vec<ExecAction>, ExecCall))
    requires
        call.stage is Running,
    ensures
        r.1.ctx == call.ctx,
        open_after(stage_open(call.ctx, call.stage), emitted(r.0@)) == Some(
            stage_open(r.1.ctx, r.1.stage),
        ),
        r.1.stage is AwaitingRetryApproval || r.1.stage is Done,
        r.1.params == call.params,
        heard(r.0@) == result_heard(call, result, turn_diff.deep_view(), policy),
        if r.1.stage is AwaitingRetryApproval {
            waits_for(*old(state), *final(state), call.ctx.sub_id@)
        } else {
            *final(state) == *old(state)
        },
        r.0@.len() == heard(r.0@).len() + (if hooks.log_writer is Some {
            1int
        } else {
            0int
        }),
        hooks.log_writer is Some ==> r.0@.len() >= 2 && logs_post_tool(
            r.0@[0],
            *hooks,
            joined(call.ctx.command_for_display.deep_view(), " "@),
            result_exit_code(result),
        ),
        r.1.stage is AwaitingRetryApproval <==> retry_offered(
            result,
            call.stage->Running_retry,
            policy,
        ),
        result matches ExecResult::Completed(o) ==> r.1.stage matches ExecStage::Done(
            ExecReply::Output { formatted_output, exit_code, success, .. },
        ) && exit_code == o.exit_code && success == (o.exit_code == 0) && formatted_output@
            == crate::session::exec_output::formatted_output(o.deep_view()),
        result is Timeout && !call.stage->Running_retry ==> r.1.stage is Done && shows_failure(
            r.1.stage->Done_0,
            result->Timeout_output.deep_view(),
        ),
        result is Timeout && call.stage->Running_retry ==> says(
            r.1.stage,
            "retry failed: "@ + result->Timeout_message@,
            None,
        ),
        result matches ExecResult::Failed(m) ==> says(
            r.1.stage,
            (if call.stage->Running_retry {
                "retry failed: "@
            } else {
                "execution error: "@
            }) + m@,
            None,
        ),
        result matches ExecResult::SandboxDenied(m) ==> sandbox_outcome(
            r.1.stage,
            call.stage,
            policy,
            m@,
        ),
        result matches ExecResult::SandboxFailed(m) ==> sandbox_outcome(
            r.1.stage,
            call.stage,
            policy,
            m@,
        ),
        final(state).current_task == old(state).current_task,
        final(state).history == old(state).history,
{
    let mut actions: Vec<ExecAction> = Vec::new();
    let ExecCall { ctx, params, stage } = call;
    let (sandbox_type, retry) = match stage {
        ExecStage::Running { sandbox_type, retry } => (sandbox_type, retry),
        _ => (SandboxType::Unconfined, false),
    };
    let is_patch = ctx.apply_patch.is_some();
    let output = output_of(&result);
    let raw = raw_command_of(&ctx);
    push_log(&mut actions, hooks.record_post_tool_use(raw.as_str(), output.exit_code));
    let end = if is_patch {
        EventMsg::PatchApplyEnd {
            call_id: ctx.call_id.clone(),
            stdout: output.stdout.clone(),
            stderr: output.stderr.clone(),
            success: output.exit_code == 0,
        }
    } else {
        EventMsg::ExecCommandEnd {
            call_id: ctx.call_id.clone(),
            stdout: output.stdout.clone(),
            stderr: output.stderr.clone(),
            aggregated_output: output.aggregated_output.clone(),
            exit_code: output.exit_code,
            duration_ms: output.duration_ms,
            formatted_output: format_exec_output_str(&output),
        }
    };
    push_event(&mut actions, ctx.sub_id.as_str(), end);
    if is_patch {
        match turn_diff {
            Some(unified_diff) => {
                push_event(&mut actions, ctx.sub_id.as_str(), EventMsg::TurnDiff { unified_diff });
            },
            None => {},
        }
    }
    let next = match &result {
        ExecResult::Completed(o) => ExecStage::Done(reply_for(o, o.exit_code == 0)),
        ExecResult::Timeout { output: o, message } => {
            if retry {
                said("retry failed: ", message.as_str(), None)
            } else {
                ExecStage::Done(reply_for(o, false))
            }
        },
        ExecResult::Failed(m) => {
            if retry {
                said("retry failed: ", m.as_str(), None)
            } else {
                said("execution error: ", m.as_str(), None)
            }
        },
        ExecResult::SandboxDenied(m) | ExecResult::SandboxFailed(m) => {
            if retry {
                said("retry failed: ", m.as_str(), None)
            } else {
                match policy {
                    AskForApproval::Never | AskForApproval::OnRequest => {
                        let mut lead: Vec<char> = Vec::new();
                        push_str(&mut lead, "failed in sandbox ");
                        match sandbox_type {
                            SandboxType::Unconfined => push_str(&mut lead, "None"),
                            SandboxType::MacosSeatbelt => push_str(&mut lead, "MacosSeatbelt"),
                            SandboxType::LinuxSeccomp => push_str(&mut lead, "LinuxSeccomp"),
                        }
                        push_str(&mut lead, " with execution error: ");
                        let lead = string_of(&lead);
                        let stage = said(lead.as_str(), m.as_str(), Some(false));
                        proof {
                            assert(lead@ + m@ =~= sandbox_failure_text(sandbox_type, m@));
                        }
                        stage
                    },
                    _ => {
                        let mut note: Vec<char> = Vec::new();
                        push_str(&mut note, "Execution failed: ");
                        push_str(&mut note, m.as_str());
                        push_event(
                            &mut actions,
                            ctx.sub_id.as_str(),
                            EventMsg::BackgroundEvent { message: string_of(&note) },
                        );
                        ask_for_approval(
                            state,
                            &ctx,
                            &params,
                            Some(String::from_str("command failed; retry without sandbox?")),
                            &mut actions,
                        );
                        ExecStage::AwaitingRetryApproval
                    },
                }
            }
        },
    };
    (actions, ExecCall { ctx, params, stage: next })
}

/// Tells the client that the command is tried again, and has it run
/// without a sandbox.
fn retry_unconfined(
    ctx: &ExecCommandContext,
    params: &ExecParams,
    actions: &mut Vec<ExecAction>,
) -> (stage: ExecStage)
    requires
        old(actions)@.len() == 0,
    ensures
        open_after(None, emitted(final(actions)@)) == Some(stage_open(*ctx, stage)),
        stage == (ExecStage::Running { sandbox_type: SandboxType::Unconfined, retry: true }),
        final(actions)@.len() == 3,
        is_note(final(actions)@[0], "retrying command without sandbox"@),
        runs(final(actions)@.last(), *params, SandboxType::Unconfined, ctx.apply_patch is None),
        heard(final(actions)@) == seq![
            (ctx.sub_id@, ExecEventView::Note { message: "retrying command without sandbox"@ }),
            (ctx.sub_id@, begin_view(*ctx)),
        ],
{
    push_event(
        actions,
        ctx.sub_id.as_str(),
        EventMsg::BackgroundEvent { message: String::from_str("retrying command without sandbox") },
    );
    launch(ctx, params, SandboxType::Unconfined, true, actions)
}

/// Takes up the user's answer to the question whether to retry without
/// a sandbox. On approval the command runs again, without a sandbox;
/// it is remembered as approved only where the approval is for the
/// rest of the session. Otherwise it is rejected.
pub fn on_retry_approval(
    state: &mut SessionState,
    call: ExecCall,
    decision: ReviewDecision,
) -> (r: (Vec<ExecAction>, ExecCall))
    requires
        call.stage is AwaitingRetryApproval,
    ensures
        r.1.ctx == call.ctx,
        open_after(None, emitted(r.0@)) == Some(stage_open(r.1.ctx, r.1.stage)),
        match decision {
            ReviewDecision::Approved => *final(state) == *old(state),
            ReviewDecision::ApprovedForSession => final(state).approved_commands.deep_view().contains(
                call.params.command.deep_view(),
            ) && approves(*old(state), *final(state), call.params.command.deep_view()),
            _ => r.1.stage matches ExecStage::Done(reply) && rejected_by_user(reply) && *final(state) == *old(state),
        },
        lets_run(decision) ==> r.1.stage == (ExecStage::Running {
            sandbox_type: SandboxType::Unconfined,
            retry: true,
        }) && is_note(r.0@[0], "retrying command without sandbox"@) && runs(
            r.0@.last(),
            call.params,
            SandboxType::Unconfined,
            call.ctx.apply_patch is None,
        ),
        r.1.params == call.params,
        heard(r.0@) == (if lets_run(decision) {
            seq![
                (
                    call.ctx.sub_id@,
                    ExecEventView::Note { message: "retrying command without sandbox"@ },
                ),
                (call.ctx.sub_id@, begin_view(call.ctx)),
            ]
        } else {
            Seq::empty()
        }),
        r.0@.len() == (if lets_run(decision) {
            3int
        } else {
            0int
        }),
        final(state).current_task == old(state).current_task,
        final(state).history == old(state).history,
        final(state).plan_mode == old(state).plan_mode,
{
    let mut actions: Vec<ExecAction> = Vec::new();
    let ExecCall { ctx, params, stage: _ } = call;
    let stage = match decision {
        ReviewDecision::Approved => retry_unconfined(&ctx, &params, &mut actions),
        ReviewDecision::ApprovedForSession => {
            state.add_approved_command(copy_strings(&params.command));
            retry_unconfined(&ctx, &params, &mut actions)
        },
        _ => ExecStage::Done(user_rejection()),
    };
    (actions, ExecCall { ctx, params, stage })
}

/// Whatever way a command takes through the pipeline, the events of a
/// command that is done leave nothing open: for every event that
/// begins a run or the application of a patch, a later event ends it
/// under the same call id.
pub proof fn lemma_done_command_is_ended(
    ctx: ExecCommandContext,
    stage: ExecStage,
    events: Seq<Event>,
    i: int,
)
    requires
        open_after(None, events) == Some(stage_open(ctx, stage)),
        stage is Done,
        0 <= i < events.len(),
        begins(events[i]) is Some,
    ensures
        crate::session::trace::is_ended(events, i),
{
    crate::session::trace::lemma_closed_trace(events, i);
}

/// A step of the pipeline keeps the events in order: what was open
/// before the step and what the step emits give what is open after it.
pub proof fn lemma_step_keeps_order(
    before: Seq<Event>,
    open: Option<(bool, Seq<char>)>,
    step: Seq<Event>,
    after: Option<(bool, Seq<char>)>,
)
    requires
        open_after(None, before) == Some(open),
        open_after(open, step) == Some(after),
    ensures
        open_after(None, before + step) == Some(after),
{
    crate::session::trace::lemma_open_after_concat(None, before, step);
}

/// What the check of a command for a patch found.
#[derive(Debug, PartialEq, Eq)]
pub enum PatchCheck {
    /// The command applies no patch.
    NotPatch,
    /// The command looks like a patch that would not apply.
    Invalid(String),
    /// The patch was dealt with, and this is the answer.
    Answered(ResponseInputItem),
    /// The patch is to be applied by a command.
    Delegated {
        patch: String,
        cwd: String,
        user_explicitly_approved_this_action: bool,
        changes: Vec<String>,
    },
}

/// The argument by which this program is told to apply a patch.
pub open spec fn apply_patch_flag() -> Seq<char> {
    "--codex-run-as-apply-patch"@
}

/// Whether a command was made ready as the application of a patch:
/// this program is run with the patch, in the directory of the patch
/// and with an empty environment, and shown as the patch tool with
/// the patch.
pub open spec fn readied_patch(
    r: (ExecCommandContext, ExecParams),
    params: ExecParams,
    program: Seq<char>,
    patch: Seq<char>,
    cwd: Seq<char>,
    approved: bool,
    changes: Seq<Seq<char>>,
) -> bool {
    &&& r.1.command.deep_view() == seq![program, apply_patch_flag(), patch]
    &&& r.1.cwd@ == cwd
    &&& r.1.timeout_ms == params.timeout_ms
    &&& r.1.env@.len() == 0
    &&& r.1.with_escalated_permissions == params.with_escalated_permissions
    &&& r.1.justification.deep_view() == params.justification.deep_view()
    &&& r.0.command_for_display.deep_view() == seq!["apply_patch"@, patch]
    &&& r.0.cwd@ == cwd
    &&& r.0.apply_patch is Some
    &&& r.0.apply_patch->0.user_explicitly_approved_this_action == approved
    &&& r.0.apply_patch->0.changes.deep_view() == changes
}

/// Makes a command ready for the pipeline, by what the check for a
/// patch found. A command that applies no patch goes as it is. A
/// patch that would not apply, and one that was dealt with already,
/// are answered at once. A patch that a command is to apply becomes
/// a run of this program, which must be known by its path.
pub fn prepare_exec(
    params: ExecParams,
    check: PatchCheck,
    program: Option<String>,
    sub_id: &str,
    call_id: &str,
) -> (r: Result<(ExecCommandContext, ExecParams), ResponseInputItem>)
    ensures
        r matches Ok(pair) ==> pair.0.sub_id@ == sub_id@ && pair.0.call_id@ == call_id@,
        match check {
            PatchCheck::NotPatch => r matches Ok(pair) && pair.1 == params
                && pair.0.command_for_display.deep_view() == params.command.deep_view()
                && pair.0.cwd@ == params.cwd@ && pair.0.apply_patch is None,
            PatchCheck::Invalid(e) => r matches Err(answer) && is_answer(
                answer,
                call_id@,
                "error: "@ + e@,
            ),
            PatchCheck::Answered(item) => r == Err::<
                (ExecCommandContext, ExecParams),
                ResponseInputItem,
            >(item),
            PatchCheck::Delegated {
                patch,
                cwd,
                user_explicitly_approved_this_action,
                changes,
            } => match program {
                Some(path) => r matches Ok(pair) && readied_patch(
                    pair,
                    params,
                    path@,
                    patch@,
                    cwd@,
                    user_explicitly_approved_this_action,
                    changes.deep_view(),
                ),
                None => r matches Err(answer) && is_answer(
                    answer,
                    call_id@,
                    "failed to determine path to codex executable"@,
                ),
            },
        },
{
    match check {
        PatchCheck::NotPatch => {
            let ctx = ExecCommandContext {
                sub_id: String::from_str(sub_id),
                call_id: String::from_str(call_id),
                command_for_display: copy_strings(&params.command),
                cwd: params.cwd.clone(),
                apply_patch: None,
            };
            Ok((ctx, params))
        },
        PatchCheck::Invalid(e) => Err(reply_about(call_id, "error: ", e.as_str(), None)),
        PatchCheck::Answered(item) => Err(item),
        PatchCheck::Delegated { patch, cwd, user_explicitly_approved_this_action, changes } => {
            match program {
                None => Err(
                    reply(
                        call_id,
                        String::from_str("failed to determine path to codex executable"),
                        None,
                    ),
                ),
                Some(path) => {
                    let mut command: Vec<String> = Vec::new();
                    command.push(path);
                    command.push(String::from_str("--codex-run-as-apply-patch"));
                    command.push(patch.clone());
                    let mut shown: Vec<String> = Vec::new();
                    shown.push(String::from_str("apply_patch"));
                    shown.push(patch);
                    proof {
                        assert(command.deep_view() =~= seq![path@, apply_patch_flag(), patch@]);
                        assert(shown.deep_view() =~= seq!["apply_patch"@, patch@]);
                    }
                    let ExecParams {
                        command: _,
                        cwd: _,
                        timeout_ms,
                        env: _,
                        with_escalated_permissions,
                        justification,
                    } = params;
                    let ready = ExecParams {
                        command,
                        cwd: cwd.clone(),
                        timeout_ms,
                        env: Vec::new(),
                        with_escalated_permissions,
                        justification,
                    };
                    let ctx = ExecCommandContext {
                        sub_id: String::from_str(sub_id),
                        call_id: String::from_str(call_id),
                        command_for_display: shown,
                        cwd,
                        apply_patch: Some(
                            ApplyPatchCommandContext { user_explicitly_approved_this_action, changes },
                        ),
                    };
                    Ok((ctx, ready))
                },
            }
        },
    }
}

/// Whether an answer is the output of a function call with the
/// content given and without a mark of success.
pub open spec fn is_answer(answer: ResponseInputItem, call_id: Seq<char>, content: Seq<char>) -> bool {
    is_reply(answer, call_id, content, None)
}

/// Whether a command is handed to the user's shell before it runs:
/// always where that shell is a PowerShell, and elsewhere where the
/// profile of the shell is to be used.
pub open spec fn translates(is_powershell: bool, use_profile: bool) -> bool {
    is_powershell || use_profile
}

/// The command as it runs: as the user's shell would be called with
/// it (`wrapped`, where the shell has such a form), if the command is
/// handed to that shell at all; else as it is.
pub fn maybe_translate_shell_command(
    params: ExecParams,
    is_powershell: bool,
    use_profile: bool,
    wrapped: Option<Vec<String>>,
) -> (r: ExecParams)
    ensures
        r.command == (if translates(is_powershell, use_profile) && wrapped is Some {
            wrapped->0
        } else {
            params.command
        }),
        r.cwd == params.cwd,
        r.timeout_ms == params.timeout_ms,
        r.env == params.env,
        r.with_escalated_permissions == params.with_escalated_permissions,
        r.justification == params.justification,
{
    if is_powershell || use_profile {
        match wrapped {
            Some(command) => {
                let mut out = params;
                out.command = command;
                return out;
            },
            None => {},
        }
    }
    params
}

/// The answer that the model gets to a command that is done. A text
/// goes as it is; the output of a run goes in the form that the caller
/// gives it (`rendered`), marked by its success.
pub fn reply_item(call_id: &str, exec_reply: ExecReply, rendered: String) -> (r: ResponseInputItem)
    ensures
        match exec_reply {
            ExecReply::Text { content, success } => is_reply(r, call_id@, content@, success),
            ExecReply::Output { success, .. } => is_reply(r, call_id@, rendered@, Some(success)),
        },
{
    match exec_reply {
        ExecReply::Text { content, success } => reply(call_id, content, success),
        ExecReply::Output { success, .. } => reply(call_id, rendered, Some(success)),
    }
}

} // verus!
