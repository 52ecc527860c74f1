use agent_core::hooks::events::HookEvent;
use agent_core::hooks::executor::HookExecutor;
use agent_core::hooks::log_writer::HookLogWriter;
use agent_core::hooks::registry::HookRegistry;
use agent_core::hooks::scope::HookScope;
use agent_core::plan_mode::config::PlanModeConfig;
use agent_core::plan_mode::entry::PlanEntryType;
use agent_core::plan_mode::session::PlanModeSession;
use agent_core::protocol::events::{Event, EventMsg};
use agent_core::protocol::items::{
    ContentItem, FunctionCallOutputPayload, InputItem, LocalShellAction, ResponseInputItem,
    ResponseItem,
};
use agent_core::protocol::{
    AskForApproval, ReviewDecision, SafetyCheck, SandboxPolicy, SandboxType, TurnAbortReason,
};
use agent_core::session::exec::{
    maybe_translate_shell_command, on_approval, on_result, on_retry_approval, prepare_exec,
    raw_command_of, reply_item, start_exec, ApplyPatchCommandContext, ExecAction, ExecCall,
    ExecCommandContext, ExecParams, ExecReply, ExecResult, ExecStage, PatchCheck,
};
use agent_core::session::exec_output::ExecToolCallOutput;
use agent_core::session::state::{AgentTask, AgentTaskKind, SessionState};
use agent_core::session::stream::{
    retry_note, retry_step, stream_step, ResponseEvent, RetryStep, StreamStep, TurnError,
};
use agent_core::session::task::{
    abort_run, get_last_assistant_message_from_turn, on_compact_done, on_review_decoded,
    on_turn_result, parse_review_output_event, review_json_slice, sort_processed, start_task,
    still_over_limit_message, token_limit_reached, ProcessedResponseItem, TaskAction, TaskPhase,
    TurnRunResult,
};
use agent_core::protocol::events::ReviewOutputEvent;

fn cmd(parts: &[&str]) -> Vec<String> {
    parts.iter().map(|s| s.to_string()).collect()
}

fn params(command: &[&str]) -> ExecParams {
    ExecParams {
        command: cmd(command),
        cwd: "/work".to_string(),
        timeout_ms: Some(1000),
        env: Vec::new(),
        with_escalated_permissions: None,
        justification: Some("because".to_string()),
    }
}

fn context(command: &[&str]) -> ExecCommandContext {
    ExecCommandContext {
        sub_id: "sub-1".to_string(),
        call_id: "call-1".to_string(),
        command_for_display: cmd(command),
        cwd: "/work".to_string(),
        apply_patch: None,
    }
}

fn logging_hooks() -> HookExecutor {
    HookExecutor::with_runtime(
        HookRegistry::new(),
        HookLogWriter::new("/tmp/logs/hooks.jsonl"),
        HookScope::LocalUser { codex_home: "/home/u/.codex".to_string() },
    )
}

fn events_of(actions: &[ExecAction]) -> Vec<&Event> {
    actions
        .iter()
        .filter_map(|a| match a {
            ExecAction::Emit(e) => Some(e),
            _ => None,
        })
        .collect()
}

fn output(exit_code: i32, text: &str) -> ExecToolCallOutput {
    ExecToolCallOutput {
        exit_code,
        stdout: text.to_string(),
        stderr: String::new(),
        aggregated_output: text.to_string(),
        duration_ms: 12,
        timed_out: false,
    }
}

fn auto(sandbox_type: SandboxType) -> SafetyCheck {
    SafetyCheck::AutoApprove { sandbox_type }
}

#[test]
fn pre_tool_deny_stops_the_command_before_it_begins() {
    let mut state = SessionState::new();
    let hooks = logging_hooks();
    let command = ["bash", "-lc", "rm -rf /var/www"];
    let (actions, call) = start_exec(
        &mut state,
        &hooks,
        context(&command),
        params(&command),
        auto(SandboxType::LinuxSeccomp),
    );
    assert!(events_of(&actions).is_empty(), "no event, and no begin in particular");
    assert!(!actions.iter().any(|a| matches!(a, ExecAction::Run(_))));
    let logged: Vec<HookEvent> = actions
        .iter()
        .filter_map(|a| match a {
            ExecAction::Log(r) => Some(r.event),
            _ => None,
        })
        .collect();
    assert_eq!(logged, vec![HookEvent::PreToolUse, HookEvent::PostToolUse]);
    match &actions[1] {
        ExecAction::Log(record) => {
            assert_eq!(record.decision.exit_code, 2);
            assert_eq!(record.trigger_id, "bash -lc rm -rf /var/www");
        }
        other => panic!("unexpected: {other:?}"),
    }
    match call.stage {
        ExecStage::Done(ExecReply::Output { formatted_output, exit_code, success, .. }) => {
            assert!(formatted_output.starts_with("Blocking destructive command"));
            assert_eq!(exit_code, 2);
            assert!(!success);
        }
        other => panic!("unexpected stage: {other:?}"),
    }
}

#[test]
fn pre_tool_deny_comes_before_any_question_to_the_user() {
    let mut state = SessionState::new();
    let command = ["rm", "-rf", "/var/www"];
    let (actions, call) = start_exec(
        &mut state,
        &HookExecutor::default(),
        context(&command),
        params(&command),
        SafetyCheck::AskUser,
    );
    assert!(actions.is_empty());
    assert!(matches!(call.stage, ExecStage::Done(ExecReply::Output { exit_code: 2, .. })));
    assert!(state.pending_approvals.is_empty());
}

#[test]
fn plan_mode_captures_a_shell_command() {
    let mut state = SessionState::new();
    state.plan_mode = Some(PlanModeSession::new(
        uuid::Uuid::new_v4(),
        AskForApproval::OnRequest,
        Vec::new(),
        &PlanModeConfig::default(),
        true,
    ));
    let command = ["bash", "-lc", "cargo test"];
    let (actions, call) = start_exec(
        &mut state,
        &logging_hooks(),
        context(&command),
        params(&command),
        auto(SandboxType::Unconfined),
    );
    assert!(!actions.iter().any(|a| matches!(a, ExecAction::Run(_))));
    let events = events_of(&actions);
    assert_eq!(events.len(), 2);
    match &events[0].msg {
        EventMsg::PlanModeUpdated { session } => {
            assert_eq!(session.plan_artifact.steps.len(), 1);
            assert_eq!(session.plan_artifact.steps[0].summary, "bash -lc cargo test");
        }
        other => panic!("unexpected: {other:?}"),
    }
    match &events[1].msg {
        EventMsg::BackgroundEvent { message } => assert_eq!(
            message,
            "Plan Mode captured command `bash -lc cargo test`\ncommand: bash -lc cargo test\ncwd: /work"
        ),
        other => panic!("unexpected: {other:?}"),
    }
    let entry = &state.plan_mode.as_ref().unwrap().plan_artifact().steps[0];
    assert_eq!(entry.entry_type, PlanEntryType::Command);
    assert_eq!(entry.summary, "bash -lc cargo test");
    assert_eq!(entry.details.as_deref(), Some("command: bash -lc cargo test\ncwd: /work"));
    match call.stage {
        ExecStage::Done(ExecReply::Output { formatted_output, exit_code, success, duration_ms }) => {
            assert_eq!(exit_code, -1);
            assert!(!success);
            assert_eq!(duration_ms, 0);
            assert!(formatted_output.contains("Plan Mode captured command"));
        }
        other => panic!("unexpected stage: {other:?}"),
    }
}

#[test]
fn plan_mode_lets_an_allowed_command_run() {
    let mut state = SessionState::new();
    state.plan_mode = Some(PlanModeSession::new(
        uuid::Uuid::new_v4(),
        AskForApproval::OnRequest,
        Vec::new(),
        &PlanModeConfig::default(),
        true,
    ));
    let command = ["bash", "-lc", "git status"];
    let (actions, call) = start_exec(
        &mut state,
        &HookExecutor::default(),
        context(&command),
        params(&command),
        auto(SandboxType::MacosSeatbelt),
    );
    assert_eq!(call.stage, ExecStage::Running { sandbox_type: SandboxType::MacosSeatbelt, retry: false });
    assert!(matches!(actions.last(), Some(ExecAction::Run(_))));
    assert!(state.plan_mode.as_ref().unwrap().plan_artifact().steps.is_empty());
}

#[test]
fn plan_mode_captures_a_patch() {
    let mut state = SessionState::new();
    state.plan_mode = Some(PlanModeSession::new(
        uuid::Uuid::new_v4(),
        AskForApproval::OnRequest,
        Vec::new(),
        &PlanModeConfig::default(),
        true,
    ));
    let mut ctx = context(&["apply_patch", "*** Begin Patch"]);
    ctx.apply_patch = Some(ApplyPatchCommandContext {
        user_explicitly_approved_this_action: true,
        changes: cmd(&["a.rs", "b.rs"]),
    });
    let (actions, call) = start_exec(
        &mut state,
        &HookExecutor::default(),
        ctx,
        params(&["x"]),
        auto(SandboxType::Unconfined),
    );
    let entry = &state.plan_mode.as_ref().unwrap().plan_artifact().steps[0];
    assert_eq!(entry.entry_type, PlanEntryType::FileChange);
    assert_eq!(entry.summary, "apply_patch affecting 2 files");
    assert_eq!(entry.details.as_deref(), Some("files: a.rs, b.rs"));
    match &events_of(&actions)[1].msg {
        EventMsg::BackgroundEvent { message } => assert_eq!(
            message,
            "Plan Mode captured proposed file changes (apply_patch affecting 2 files)\nfiles: a.rs, b.rs"
        ),
        other => panic!("unexpected: {other:?}"),
    }
    assert!(matches!(call.stage, ExecStage::Done(ExecReply::Output { exit_code: -1, .. })));
}

#[test]
fn an_approved_command_runs_and_ends() {
    let mut state = SessionState::new();
    let hooks = logging_hooks();
    let command = ["echo", "hi"];
    let (actions, call) = start_exec(
        &mut state,
        &hooks,
        context(&command),
        params(&command),
        auto(SandboxType::LinuxSeccomp),
    );
    let events = events_of(&actions);
    assert_eq!(events.len(), 1);
    match &events[0].msg {
        EventMsg::ExecCommandBegin { call_id, command, cwd } => {
            assert_eq!(call_id, "call-1");
            assert_eq!(command, &cmd(&["echo", "hi"]));
            assert_eq!(cwd, "/work");
        }
        other => panic!("unexpected: {other:?}"),
    }
    assert_eq!(events[0].id, "sub-1");
    match actions.last() {
        Some(ExecAction::Run(args)) => {
            assert_eq!(args.sandbox_type, SandboxType::LinuxSeccomp);
            assert!(args.stream_stdout);
            assert_eq!(args.params, params(&command));
        }
        other => panic!("unexpected: {other:?}"),
    }

    let (actions, call) = on_result(
        &mut state,
        &hooks,
        AskForApproval::OnRequest,
        call,
        ExecResult::Completed(output(0, "hi\n")),
        Some("ignored for commands".to_string()),
    );
    let events = events_of(&actions);
    assert_eq!(events.len(), 1);
    match &events[0].msg {
        EventMsg::ExecCommandEnd { call_id, exit_code, stdout, formatted_output, duration_ms, .. } => {
            assert_eq!(call_id, "call-1");
            assert_eq!(*exit_code, 0);
            assert_eq!(stdout, "hi\n");
            assert_eq!(formatted_output, "hi\n");
            assert_eq!(*duration_ms, 12);
        }
        other => panic!("unexpected: {other:?}"),
    }
    assert!(matches!(&actions[0], ExecAction::Log(r) if r.event == HookEvent::PostToolUse));
    assert_eq!(
        call.stage,
        ExecStage::Done(ExecReply::Output {
            formatted_output: "hi\n".to_string(),
            exit_code: 0,
            duration_ms: 12,
            success: true,
        })
    );
}

#[test]
fn the_user_is_asked_and_may_approve_for_the_session() {
    let mut state = SessionState::new();
    let hooks = HookExecutor::default();
    let command = ["npm", "test"];
    let (actions, call) =
        start_exec(&mut state, &hooks, context(&command), params(&command), SafetyCheck::AskUser);
    assert_eq!(call.stage, ExecStage::AwaitingApproval);
    assert_eq!(state.pending_approvals, vec!["sub-1".to_string()]);
    match &events_of(&actions)[0].msg {
        EventMsg::ExecApprovalRequest { call_id, command, cwd, reason } => {
            assert_eq!(call_id, "call-1");
            assert_eq!(command, &cmd(&["npm", "test"]));
            assert_eq!(cwd, "/work");
            assert_eq!(reason.as_deref(), Some("because"));
        }
        other => panic!("unexpected: {other:?}"),
    }
    let (actions, call) = on_approval(&mut state, call, ReviewDecision::ApprovedForSession);
    assert_eq!(call.stage, ExecStage::Running { sandbox_type: SandboxType::Unconfined, retry: false });
    assert!(state.is_approved_command(&cmd(&["npm", "test"])));
    assert!(matches!(&events_of(&actions)[0].msg, EventMsg::ExecCommandBegin { .. }));
}

#[test]
fn a_denied_or_rejected_command_does_not_run() {
    let mut state = SessionState::new();
    let hooks = HookExecutor::default();
    let command = ["npm", "test"];
    for decision in [ReviewDecision::Denied, ReviewDecision::Abort] {
        let (_, call) =
            start_exec(&mut state, &hooks, context(&command), params(&command), SafetyCheck::AskUser);
        let (actions, call) = on_approval(&mut state, call, decision);
        assert!(actions.is_empty());
        assert_eq!(
            call.stage,
            ExecStage::Done(ExecReply::Text {
                content: "exec command rejected by user".to_string(),
                success: None
            })
        );
    }
    let (actions, call) = start_exec(
        &mut state,
        &hooks,
        context(&command),
        params(&command),
        SafetyCheck::Reject { reason: "too dangerous".to_string() },
    );
    assert!(actions.is_empty());
    assert_eq!(
        call.stage,
        ExecStage::Done(ExecReply::Text {
            content: "exec command rejected: too dangerous".to_string(),
            success: None
        })
    );
    assert!(!state.is_approved_command(&cmd(&["npm", "test"])));
}

#[test]
fn sandbox_denial_offers_a_retry_without_sandbox() {
    let mut state = SessionState::new();
    let hooks = HookExecutor::default();
    let command = ["npm", "install"];
    let (_, call) = start_exec(
        &mut state,
        &hooks,
        context(&command),
        params(&command),
        auto(SandboxType::LinuxSeccomp),
    );
    let (actions, call) = on_result(
        &mut state,
        &hooks,
        AskForApproval::OnFailure,
        call,
        ExecResult::SandboxDenied("network unreachable".to_string()),
        None,
    );
    assert_eq!(call.stage, ExecStage::AwaitingRetryApproval);
    let events = events_of(&actions);
    assert_eq!(events.len(), 3);
    assert!(matches!(&events[0].msg, EventMsg::ExecCommandEnd { exit_code: -1, .. }));
    match &events[1].msg {
        EventMsg::BackgroundEvent { message } => {
            assert_eq!(message, "Execution failed: network unreachable")
        }
        other => panic!("unexpected: {other:?}"),
    }
    match &events[2].msg {
        EventMsg::ExecApprovalRequest { reason, call_id, .. } => {
            assert_eq!(reason.as_deref(), Some("command failed; retry without sandbox?"));
            assert_eq!(call_id, "call-1");
        }
        other => panic!("unexpected: {other:?}"),
    }

    let (actions, call) = on_retry_approval(&mut state, call, ReviewDecision::Approved);
    assert_eq!(call.stage, ExecStage::Running { sandbox_type: SandboxType::Unconfined, retry: true });
    assert_eq!(actions.len(), 3);
    match &actions[0] {
        ExecAction::Emit(e) => match &e.msg {
            EventMsg::BackgroundEvent { message } => {
                assert_eq!(message, "retrying command without sandbox")
            }
            other => panic!("unexpected: {other:?}"),
        },
        other => panic!("unexpected: {other:?}"),
    }
    assert!(matches!(&actions[1], ExecAction::Emit(e) if matches!(e.msg, EventMsg::ExecCommandBegin { .. })));
    assert!(matches!(&actions[2], ExecAction::Run(a) if a.sandbox_type == SandboxType::Unconfined));
    assert!(!state.is_approved_command(&cmd(&["npm", "install"])));
    assert!(state.approved_commands.is_empty());

    let (_, call) = on_result(
        &mut state,
        &hooks,
        AskForApproval::OnFailure,
        call,
        ExecResult::Completed(output(1, "failed")),
        None,
    );
    assert!(matches!(
        call.stage,
        ExecStage::Done(ExecReply::Output { exit_code: 1, success: false, .. })
    ));
}

#[test]
fn sandbox_denial_is_final_where_the_user_is_not_asked() {
    for policy in [AskForApproval::Never, AskForApproval::OnRequest] {
        let mut state = SessionState::new();
        let hooks = HookExecutor::default();
        let command = ["npm", "install"];
        let (_, call) = start_exec(
            &mut state,
            &hooks,
            context(&command),
            params(&command),
            auto(SandboxType::MacosSeatbelt),
        );
        let (_, call) = on_result(
            &mut state,
            &hooks,
            policy,
            call,
            ExecResult::SandboxFailed("seatbelt".to_string()),
            None,
        );
        assert_eq!(
            call.stage,
            ExecStage::Done(ExecReply::Text {
                content: "failed in sandbox MacosSeatbelt with execution error: seatbelt".to_string(),
                success: Some(false),
            })
        );
    }
}

#[test]
fn failures_of_a_run_are_worded() {
    let run = |result: ExecResult, retry: bool| -> ExecStage {
        let mut state = SessionState::new();
        let hooks = HookExecutor::default();
        let call = ExecCall {
            ctx: context(&["x"]),
            params: params(&["x"]),
            stage: ExecStage::Running { sandbox_type: SandboxType::Unconfined, retry },
        };
        on_result(&mut state, &hooks, AskForApproval::OnFailure, call, result, None).1.stage
    };
    assert_eq!(
        run(ExecResult::Failed("spawn failed".to_string()), false),
        ExecStage::Done(ExecReply::Text {
            content: "execution error: spawn failed".to_string(),
            success: None
        })
    );
    assert_eq!(
        run(ExecResult::Failed("spawn failed".to_string()), true),
        ExecStage::Done(ExecReply::Text {
            content: "retry failed: spawn failed".to_string(),
            success: None
        })
    );
    assert_eq!(
        run(ExecResult::SandboxDenied("denied".to_string()), true),
        ExecStage::Done(ExecReply::Text { content: "retry failed: denied".to_string(), success: None })
    );
    let mut timed_out = output(124, "partial");
    timed_out.timed_out = true;
    match run(ExecResult::Timeout { output: timed_out, message: "timed out".to_string() }, false) {
        ExecStage::Done(ExecReply::Output { formatted_output, success, exit_code, .. }) => {
            assert!(!success);
            assert_eq!(exit_code, 124);
            assert_eq!(formatted_output, "command timed out after 12 milliseconds\npartial");
        }
        other => panic!("unexpected: {other:?}"),
    }
}

#[test]
fn a_patch_begins_ends_and_then_shows_the_diff_of_the_turn() {
    let mut state = SessionState::new();
    let hooks = HookExecutor::default();
    let check = PatchCheck::Delegated {
        patch: "*** Begin Patch".to_string(),
        cwd: "/repo".to_string(),
        user_explicitly_approved_this_action: false,
        changes: cmd(&["a.rs", "b.rs"]),
    };
    let (ctx, ready) = prepare_exec(
        params(&["apply_patch", "*** Begin Patch"]),
        check,
        Some("/usr/bin/codex".to_string()),
        "sub-1",
        "call-9",
    )
    .expect("ready");
    assert_eq!(
        ready.command,
        cmd(&["/usr/bin/codex", "--codex-run-as-apply-patch", "*** Begin Patch"])
    );
    assert_eq!(ready.cwd, "/repo");
    assert_eq!(ctx.command_for_display, cmd(&["apply_patch", "*** Begin Patch"]));
    assert_eq!(raw_command_of(&ctx), "apply_patch *** Begin Patch");

    let (actions, call) =
        start_exec(&mut state, &hooks, ctx, ready, auto(SandboxType::LinuxSeccomp));
    match &events_of(&actions)[0].msg {
        EventMsg::PatchApplyBegin { call_id, auto_approved, changes } => {
            assert_eq!(call_id, "call-9");
            assert!(*auto_approved);
            assert_eq!(changes.len(), 2);
        }
        other => panic!("unexpected: {other:?}"),
    }
    assert!(matches!(actions.last(), Some(ExecAction::Run(a)) if !a.stream_stdout));
    let (actions, call) = on_result(
        &mut state,
        &hooks,
        AskForApproval::OnRequest,
        call,
        ExecResult::Completed(output(0, "Done!")),
        Some("diff --git a/a.rs b/a.rs\ndiff --git a/b.rs b/b.rs".to_string()),
    );
    let events = events_of(&actions);
    assert_eq!(events.len(), 2);
    assert!(matches!(&events[0].msg, EventMsg::PatchApplyEnd { success: true, call_id, .. } if call_id == "call-9"));
    match &events[1].msg {
        EventMsg::TurnDiff { unified_diff } => {
            assert!(unified_diff.contains("a.rs") && unified_diff.contains("b.rs"))
        }
        other => panic!("unexpected: {other:?}"),
    }
    assert!(matches!(
        call.stage,
        ExecStage::Done(ExecReply::Output { exit_code: 0, success: true, .. })
    ));
}

#[test]
fn an_explicitly_approved_patch_runs_without_sandbox() {
    let mut state = SessionState::new();
    let mut ctx = context(&["apply_patch", "p"]);
    ctx.apply_patch = Some(ApplyPatchCommandContext {
        user_explicitly_approved_this_action: true,
        changes: cmd(&["a.rs"]),
    });
    let (actions, call) = start_exec(
        &mut state,
        &HookExecutor::default(),
        ctx,
        params(&["x"]),
        SafetyCheck::AskUser,
    );
    assert_eq!(call.stage, ExecStage::Running { sandbox_type: SandboxType::Unconfined, retry: false });
    assert!(matches!(
        &events_of(&actions)[0].msg,
        EventMsg::PatchApplyBegin { auto_approved: false, .. }
    ));
}

#[test]
fn commands_are_made_ready_by_what_the_patch_check_found() {
    let plain = prepare_exec(params(&["ls"]), PatchCheck::NotPatch, None, "s", "c").expect("plain");
    assert_eq!(plain.0.command_for_display, cmd(&["ls"]));
    assert!(plain.0.apply_patch.is_none());
    assert_eq!(plain.1, params(&["ls"]));
    assert_eq!(
        prepare_exec(params(&["x"]), PatchCheck::Invalid("bad hunk".to_string()), None, "s", "c"),
        Err(ResponseInputItem::FunctionCallOutput {
            call_id: "c".to_string(),
            output: FunctionCallOutputPayload { content: "error: bad hunk".to_string(), success: None },
        })
    );
    let answered = ResponseInputItem::FunctionCallOutput {
        call_id: "c".to_string(),
        output: FunctionCallOutputPayload { content: "patch rejected".to_string(), success: Some(false) },
    };
    let again = ResponseInputItem::FunctionCallOutput {
        call_id: "c".to_string(),
        output: FunctionCallOutputPayload { content: "patch rejected".to_string(), success: Some(false) },
    };
    assert_eq!(
        prepare_exec(params(&["x"]), PatchCheck::Answered(answered), None, "s", "c"),
        Err(again)
    );
    let delegated = PatchCheck::Delegated {
        patch: "p".to_string(),
        cwd: "/r".to_string(),
        user_explicitly_approved_this_action: true,
        changes: Vec::new(),
    };
    assert_eq!(
        prepare_exec(params(&["x"]), delegated, None, "s", "c"),
        Err(ResponseInputItem::FunctionCallOutput {
            call_id: "c".to_string(),
            output: FunctionCallOutputPayload {
                content: "failed to determine path to codex executable".to_string(),
                success: None
            },
        })
    );
}

#[test]
fn shell_translation_and_reply_items() {
    let wrapped = Some(cmd(&["pwsh", "-Command", "ls"]));
    assert_eq!(
        maybe_translate_shell_command(params(&["ls"]), true, false, wrapped.clone()).command,
        cmd(&["pwsh", "-Command", "ls"])
    );
    assert_eq!(
        maybe_translate_shell_command(params(&["ls"]), false, false, wrapped).command,
        cmd(&["ls"])
    );
    assert_eq!(maybe_translate_shell_command(params(&["ls"]), false, true, None).command, cmd(&["ls"]));
    assert_eq!(
        reply_item(
            "c",
            ExecReply::Text { content: "t".to_string(), success: None },
            "unused".to_string()
        ),
        ResponseInputItem::FunctionCallOutput {
            call_id: "c".to_string(),
            output: FunctionCallOutputPayload { content: "t".to_string(), success: None },
        }
    );
    assert_eq!(
        reply_item(
            "c",
            ExecReply::Output {
                formatted_output: "o".to_string(),
                exit_code: 3,
                duration_ms: 1,
                success: false
            },
            "{\"output\":\"o\"}".to_string()
        ),
        ResponseInputItem::FunctionCallOutput {
            call_id: "c".to_string(),
            output: FunctionCallOutputPayload {
                content: "{\"output\":\"o\"}".to_string(),
                success: Some(false)
            },
        }
    );
}

fn text_input(text: &str) -> Vec<InputItem> {
    vec![InputItem::Text { text: text.to_string() }]
}

fn assistant(text: &str) -> ResponseItem {
    ResponseItem::Message {
        id: None,
        role: "assistant".to_string(),
        content: vec![ContentItem::OutputText { text: text.to_string() }],
    }
}

fn told(actions: &[TaskAction]) -> Vec<&EventMsg> {
    actions
        .iter()
        .filter_map(|a| match a {
            TaskAction::Emit(e) => Some(&e.msg),
            _ => None,
        })
        .collect()
}

fn call_item(call_id: &str) -> ResponseItem {
    ResponseItem::FunctionCall {
        id: None,
        name: "shell".to_string(),
        arguments: "{}".to_string(),
        call_id: call_id.to_string(),
    }
}

fn call_output(call_id: &str, content: &str) -> ResponseInputItem {
    ResponseInputItem::FunctionCallOutput {
        call_id: call_id.to_string(),
        output: FunctionCallOutputPayload { content: content.to_string(), success: Some(true) },
    }
}

#[test]
fn empty_input_starts_no_task() {
    let mut state = SessionState::new();
    let (actions, run) = start_task(&mut state, "sub-1", Vec::new(), Some(128_000), false);
    assert!(actions.is_empty());
    assert_eq!(run.phase, TaskPhase::Finished);
    assert!(state.history.contents().is_empty());
    let (actions, _) = abort_run(run, TurnAbortReason::Interrupted);
    assert!(actions.is_empty());
}

#[test]
fn a_task_starts_runs_its_turns_and_completes_once() {
    let mut state = SessionState::new();
    state.set_task(AgentTask { sub_id: "sub-1".to_string(), kind: AgentTaskKind::Regular });
    let (actions, run) = start_task(&mut state, "sub-1", text_input("hello"), Some(128_000), false);
    assert!(matches!(
        told(&actions)[..],
        [EventMsg::TaskStarted { model_context_window: Some(128_000) }]
    ));
    assert_eq!(run.phase, TaskPhase::InTurn);
    match actions.last() {
        Some(TaskAction::RunTurn(input)) => assert_eq!(input.len(), 1),
        other => panic!("unexpected: {other:?}"),
    }
    assert_eq!(state.history.contents().len(), 1);

    let turn = TurnRunResult {
        processed_items: vec![ProcessedResponseItem {
            item: call_item("c1"),
            response: Some(call_output("c1", "ok")),
        }],
        tokens_in_context_window: Some(10),
    };
    let (actions, run) = on_turn_result(&mut state, run, Ok(turn), Some(1000));
    assert_eq!(run.phase, TaskPhase::InTurn);
    assert!(told(&actions).is_empty());
    match actions.last() {
        Some(TaskAction::RunTurn(input)) => {
            assert_eq!(input.len(), 3);
            assert_eq!(input[1], call_item("c1"));
        }
        other => panic!("unexpected: {other:?}"),
    }

    let turn = TurnRunResult {
        processed_items: vec![ProcessedResponseItem { item: assistant("done"), response: None }],
        tokens_in_context_window: Some(20),
    };
    let (actions, run) = on_turn_result(&mut state, run, Ok(turn), Some(1000));
    assert_eq!(run.phase, TaskPhase::Finished);
    match told(&actions)[..] {
        [EventMsg::TaskComplete { last_agent_message }] => {
            assert_eq!(last_agent_message.as_deref(), Some("done"))
        }
        ref other => panic!("unexpected: {other:?}"),
    }
    assert!(actions.iter().any(|a| matches!(
        a,
        TaskAction::Notify { last_assistant_message } if last_assistant_message.as_deref() == Some("done")
    )));
    assert!(state.current_task.is_none());
    assert_eq!(state.history.contents().len(), 4);
    let (actions, _) = abort_run(run, TurnAbortReason::Replaced);
    assert!(actions.is_empty(), "a task that is over is not aborted again");
}

#[test]
fn a_turn_that_fails_ends_the_task_with_an_error() {
    let mut state = SessionState::new();
    let (_, run) = start_task(&mut state, "s", text_input("hello"), None, false);
    let (actions, run) = on_turn_result(&mut state, run, Err("stream broke".to_string()), None);
    assert_eq!(run.phase, TaskPhase::Finished);
    match told(&actions)[..] {
        [EventMsg::Error { message }, EventMsg::TaskComplete { last_agent_message: None }] => {
            assert_eq!(message, "stream broke")
        }
        ref other => panic!("unexpected: {other:?}"),
    }
}

#[test]
fn the_conversation_is_summarised_once_when_it_outgrows_its_limit() {
    let mut state = SessionState::new();
    let (_, run) = start_task(&mut state, "s", text_input("hello"), None, false);
    let big = |text: &str| TurnRunResult {
        processed_items: vec![ProcessedResponseItem { item: assistant(text), response: None }],
        tokens_in_context_window: Some(5000),
    };
    let (actions, run) = on_turn_result(&mut state, run, Ok(big("one")), Some(4000));
    assert_eq!(run.phase, TaskPhase::Compacting);
    assert!(matches!(actions.last(), Some(TaskAction::Compact)));
    assert!(told(&actions).is_empty());
    let (actions, run) = on_compact_done(&mut state, run);
    assert_eq!(run.phase, TaskPhase::InTurn);
    assert!(matches!(actions.last(), Some(TaskAction::RunTurn(_))));
    let (actions, run) = on_turn_result(&mut state, run, Ok(big("two")), Some(4000));
    assert_eq!(run.phase, TaskPhase::Finished);
    match told(&actions)[..] {
        [EventMsg::Error { message }, EventMsg::TaskComplete { last_agent_message: None }] => assert_eq!(
            message,
            "Conversation is still above the token limit after automatic summarization (limit 4000, current 5000). Please start a new session or trim your input."
        ),
        ref other => panic!("unexpected: {other:?}"),
    }
}

#[test]
fn token_limits_and_their_message() {
    assert!(token_limit_reached(Some(10), Some(10)));
    assert!(!token_limit_reached(Some(9), Some(10)));
    assert!(!token_limit_reached(None, Some(0)));
    assert!(!token_limit_reached(Some(u64::MAX / 4), None));
    assert!(token_limit_reached(Some(0), Some(-1)));
    assert_eq!(
        still_over_limit_message(None, None),
        "Conversation is still above the token limit after automatic summarization (limit 9223372036854775807, current unknown). Please start a new session or trim your input."
    );
}

#[test]
fn a_task_that_checks_code_keeps_its_conversation_and_reads_its_outcome() {
    let mut state = SessionState::new();
    let (actions, run) = start_task(&mut state, "rev", text_input("check this"), None, true);
    assert!(state.history.contents().is_empty());
    assert!(!actions.iter().any(|a| matches!(a, TaskAction::Persist(_))));
    let turn = TurnRunResult {
        processed_items: vec![ProcessedResponseItem {
            item: assistant("Here: {\"overall_explanation\": \"fine\"} ok"),
            response: None,
        }],
        tokens_in_context_window: None,
    };
    let (actions, run) = on_turn_result(&mut state, run, Ok(turn), None);
    assert_eq!(run.phase, TaskPhase::Reviewing);
    assert!(state.history.contents().is_empty());
    match actions.last() {
        Some(TaskAction::DecodeReview { text, part }) => {
            assert_eq!(text, "Here: {\"overall_explanation\": \"fine\"} ok");
            assert_eq!(part.as_deref(), Some("{\"overall_explanation\": \"fine\"}"));
        }
        other => panic!("unexpected: {other:?}"),
    }
    let decoded = ReviewOutputEvent { overall_explanation: "fine".to_string(), structured: None };
    let (actions, run) = on_review_decoded(&mut state, run, None, Some(decoded));
    assert_eq!(run.phase, TaskPhase::Finished);
    match told(&actions)[..] {
        [EventMsg::ExitedReviewMode { review_output: Some(out) }, EventMsg::TaskComplete { .. }] => {
            assert_eq!(out.overall_explanation, "fine")
        }
        ref other => panic!("unexpected: {other:?}"),
    }
}

#[test]
fn an_aborted_task_is_told_of_once() {
    let mut state = SessionState::new();
    let (_, run) = start_task(&mut state, "rev", text_input("check"), None, true);
    let (actions, run) = abort_run(run, TurnAbortReason::Replaced);
    match told(&actions)[..] {
        [EventMsg::ExitedReviewMode { review_output: None }, EventMsg::TurnAborted { reason }] => {
            assert_eq!(*reason, TurnAbortReason::Replaced)
        }
        ref other => panic!("unexpected: {other:?}"),
    }
    assert_eq!(run.phase, TaskPhase::Finished);
    let (_, run) = start_task(&mut state, "s", text_input("x"), None, false);
    let (actions, _) = abort_run(run, TurnAbortReason::Interrupted);
    assert!(matches!(
        told(&actions)[..],
        [EventMsg::TurnAborted { reason: TurnAbortReason::Interrupted }]
    ));
}

#[test]
fn review_outcomes_are_read_from_the_message() {
    assert_eq!(review_json_slice("no braces"), None);
    assert_eq!(review_json_slice("} {"), None);
    assert_eq!(review_json_slice("a {b} c {d} e").as_deref(), Some("{b} c {d}"));
    let whole = ReviewOutputEvent { overall_explanation: "w".to_string(), structured: None };
    let part = ReviewOutputEvent { overall_explanation: "p".to_string(), structured: None };
    assert_eq!(
        parse_review_output_event("{x}", Some(whole), Some(part)).overall_explanation,
        "w"
    );
    let part = ReviewOutputEvent { overall_explanation: "p".to_string(), structured: None };
    assert_eq!(parse_review_output_event("t {x}", None, Some(part)).overall_explanation, "p");
    assert_eq!(
        parse_review_output_event("plain text", None, None),
        ReviewOutputEvent { overall_explanation: "plain text".to_string(), structured: None }
    );
}

#[test]
fn what_a_turn_brought_is_sorted_for_the_conversation() {
    let reasoning = ResponseItem::Reasoning {
        id: "r".to_string(),
        summary: vec!["s".to_string()],
        content: None,
        encrypted_content: None,
    };
    let user = ResponseItem::Message { id: None, role: "user".to_string(), content: Vec::new() };
    let local = ResponseItem::LocalShellCall {
        id: None,
        call_id: Some("l".to_string()),
        status: "completed".to_string(),
        action: LocalShellAction { command: cmd(&["ls"]), working_directory: None, timeout_ms: None },
    };
    let processed = vec![
        ProcessedResponseItem { item: assistant("a"), response: None },
        ProcessedResponseItem { item: user, response: None },
        ProcessedResponseItem { item: reasoning.clone(), response: None },
        ProcessedResponseItem { item: local.clone(), response: Some(call_output("l", "out")) },
        ProcessedResponseItem {
            item: call_item("m"),
            response: Some(ResponseInputItem::McpToolCallOutput {
                call_id: "m".to_string(),
                result: Err("tool failed".to_string()),
            }),
        },
        ProcessedResponseItem {
            item: call_item("odd"),
            response: Some(ResponseInputItem::CustomToolCallOutput {
                call_id: "odd".to_string(),
                output: "x".to_string(),
            }),
        },
    ];
    let (items, owed) = sort_processed(&processed);
    assert!(owed);
    assert_eq!(
        items,
        vec![
            assistant("a"),
            reasoning,
            local,
            ResponseItem::FunctionCallOutput {
                call_id: "l".to_string(),
                output: FunctionCallOutputPayload { content: "out".to_string(), success: Some(true) },
            },
            call_item("m"),
            ResponseItem::FunctionCallOutput {
                call_id: "m".to_string(),
                output: FunctionCallOutputPayload {
                    content: "tool failed".to_string(),
                    success: Some(false)
                },
            },
        ]
    );
    assert_eq!(get_last_assistant_message_from_turn(&items).as_deref(), Some("a"));
    assert_eq!(get_last_assistant_message_from_turn(&Vec::new()), None);
}

#[test]
fn the_stream_of_a_turn_is_taken_up_step_by_step() {
    match stream_step(None, false, false, None) {
        StreamStep::Failed(TurnError::Stream { message, retry_after_ms: None }) => {
            assert_eq!(message, "stream closed before response.completed")
        }
        other => panic!("unexpected: {other:?}"),
    }
    assert!(matches!(
        stream_step(Some(Err(TurnError::Interrupted)), false, false, None),
        StreamStep::Failed(TurnError::Interrupted)
    ));
    assert!(matches!(
        &stream_step(Some(Ok(ResponseEvent::Created)), false, false, None),
        StreamStep::Forward(m) if m.is_empty()
    ));
    assert!(matches!(
        &stream_step(Some(Ok(ResponseEvent::OutputTextDelta("x".into()))), false, false, None),
        StreamStep::Forward(m) if matches!(&m[..], [EventMsg::AgentMessageDelta { delta }] if delta == "x")
    ));
    assert!(matches!(
        &stream_step(Some(Ok(ResponseEvent::OutputTextDelta("x".into()))), true, false, None),
        StreamStep::Forward(m) if m.is_empty()
    ));
    assert!(matches!(
        &stream_step(Some(Ok(ResponseEvent::ReasoningContentDelta("x".into()))), false, false, None),
        StreamStep::Forward(m) if m.is_empty()
    ));
    assert!(matches!(
        &stream_step(Some(Ok(ResponseEvent::ReasoningContentDelta("x".into()))), false, true, None),
        StreamStep::Forward(m) if matches!(&m[..], [EventMsg::AgentReasoningRawContentDelta { .. }])
    ));
    assert!(matches!(
        &stream_step(Some(Ok(ResponseEvent::ReasoningSummaryPartAdded)), true, false, None),
        StreamStep::Forward(m) if matches!(&m[..], [EventMsg::AgentReasoningSectionBreak])
    ));
    assert!(matches!(
        &stream_step(Some(Ok(ResponseEvent::WebSearchCallBegin { call_id: "w".into() })), true, false, None),
        StreamStep::Forward(m) if matches!(&m[..], [EventMsg::WebSearchBegin { call_id }] if call_id == "w")
    ));
    assert!(matches!(
        stream_step(Some(Ok(ResponseEvent::OutputItemDone(assistant("a")))), false, false, None),
        StreamStep::Item(item) if item == assistant("a")
    ));
    match stream_step(
        Some(Ok(ResponseEvent::Completed { tokens_in_context_window: Some(7) })),
        false,
        false,
        Some("diff".to_string()),
    ) {
        StreamStep::Finished { messages, tokens_in_context_window } => {
            assert_eq!(tokens_in_context_window, Some(7));
            assert!(matches!(
                &messages[..],
                [EventMsg::TokenCount, EventMsg::TurnDiff { unified_diff }] if unified_diff == "diff"
            ));
        }
        other => panic!("unexpected: {other:?}"),
    }
}

#[test]
fn turns_are_retried_within_their_budget() {
    let stream = TurnError::Stream { message: "eof".to_string(), retry_after_ms: Some(250) };
    assert_eq!(retry_step(&stream, 0, 2), RetryStep::Retry { retries: 1, retry_after_ms: Some(250) });
    assert_eq!(retry_step(&stream, 2, 2), RetryStep::GiveUp);
    assert_eq!(
        retry_step(&TurnError::Other("x".to_string()), 1, 2),
        RetryStep::Retry { retries: 2, retry_after_ms: None }
    );
    for never in [
        TurnError::Interrupted,
        TurnError::EnvVar("KEY".to_string()),
        TurnError::UsageLimitReached("plan".to_string()),
        TurnError::UsageNotIncluded,
    ] {
        assert_eq!(retry_step(&never, 0, 5), RetryStep::GiveUp);
    }
    let note = retry_note("sub", "eof", 1, 5, "250ms");
    assert_eq!(note.id, "sub");
    match note.msg {
        EventMsg::StreamError { message } => {
            assert_eq!(message, "stream error: eof; retrying 1/5 in 250ms")
        }
        other => panic!("unexpected: {other:?}"),
    }
}

#[test]
fn sandbox_policies_say_whether_the_network_is_open() {
    assert!(SandboxPolicy::DangerFullAccess.has_full_network_access());
    assert!(!SandboxPolicy::ReadOnly.has_full_network_access());
    assert!(SandboxPolicy::WorkspaceWrite { network_access: true }.has_full_network_access());
    assert!(!SandboxPolicy::WorkspaceWrite { network_access: false }.has_full_network_access());
}

#[test]
fn a_retry_is_remembered_only_where_it_is_approved_for_the_session() {
    let hooks = HookExecutor::default();
    let command = ["npm", "install"];
    let denied = |state: &mut SessionState| {
        let (_, call) = start_exec(
            state,
            &hooks,
            context(&command),
            params(&command),
            auto(SandboxType::LinuxSeccomp),
        );
        let (_, call) = on_result(
            state,
            &hooks,
            AskForApproval::UnlessTrusted,
            call,
            ExecResult::SandboxFailed("seccomp".to_string()),
            None,
        );
        assert_eq!(call.stage, ExecStage::AwaitingRetryApproval);
        call
    };

    let mut state = SessionState::new();
    let call = denied(&mut state);
    let (actions, call) = on_retry_approval(&mut state, call, ReviewDecision::ApprovedForSession);
    assert_eq!(call.stage, ExecStage::Running { sandbox_type: SandboxType::Unconfined, retry: true });
    assert_eq!(actions.len(), 3);
    assert_eq!(state.approved_commands, vec![cmd(&command)]);

    let call = denied(&mut state);
    let (_, call) = on_retry_approval(&mut state, call, ReviewDecision::ApprovedForSession);
    assert_eq!(call.stage, ExecStage::Running { sandbox_type: SandboxType::Unconfined, retry: true });
    assert_eq!(state.approved_commands, vec![cmd(&command)]);

    let mut state = SessionState::new();
    let call = denied(&mut state);
    let (actions, call) = on_retry_approval(&mut state, call, ReviewDecision::Denied);
    assert!(actions.is_empty());
    assert_eq!(
        call.stage,
        ExecStage::Done(ExecReply::Text {
            content: "exec command rejected by user".to_string(),
            success: None
        })
    );
    assert!(state.approved_commands.is_empty());
}

#[test]
fn the_wait_before_a_try_doubles_up_to_the_tenth() {
    assert_eq!(agent_core::session::stream::backoff_ms(0), 200);
    assert_eq!(agent_core::session::stream::backoff_ms(1), 400);
    assert_eq!(agent_core::session::stream::backoff_ms(3), 1600);
    assert_eq!(agent_core::session::stream::backoff_ms(10), 204_800);
    assert_eq!(agent_core::session::stream::backoff_ms(11), 204_800);
    assert_eq!(agent_core::session::stream::backoff_ms(u64::MAX), 204_800);
    assert_eq!(agent_core::session::stream::retry_wait_ms(3, None), 1600);
    assert_eq!(agent_core::session::stream::retry_wait_ms(3, Some(50)), 50);
    assert_eq!(agent_core::session::stream::retry_wait_ms(0, Some(0)), 0);
}
