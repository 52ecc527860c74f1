use agent_core::hooks::executor::HookExecutor;
use agent_core::hooks::snapshot::HookListRequest;
use agent_core::plan_mode::config::PlanModeConfig;
use agent_core::plan_mode::session::PlanModeSession;
use agent_core::protocol::events::EventMsg;
use agent_core::protocol::items::{
    ContentItem, FunctionCallOutputPayload, InputItem, LocalShellAction, ResponseInputItem,
    ResponseItem,
};
use agent_core::protocol::ops::{Op, Submission};
use agent_core::protocol::{
    AskForApproval, ReviewDecision, SandboxPolicy, SubagentApprovalDecision, TurnAbortReason,
};
use agent_core::session::guidance::{build_subagent_guidance, merge_guidance};
use agent_core::session::replies::as_custom_reply;
use agent_core::session::setup::{
    configure_session, new_session, ConfigureSession, InitialHistory, SessionSettings,
    StartupFacts,
};
use agent_core::session::state::{
    AgentTask, AgentTaskKind, AttachmentFact, McpToolInfo, PlanItemArg, SessionState, StepStatus,
    TurnContext, UpdatePlanArgs,
};
use agent_core::session::submission::{
    first_text, handle_submission, on_reload_slash_commands, on_rollout_closed, rebuild_items,
    slash_error_message, LoopAction, LoopSettings, SlashResolution, SubmissionFacts,
};
use agent_core::session::tool_calls::{
    gate_tool_call, on_subagent_decision, request_command_approval, request_patch_approval,
    subagent_result_reply, subagent_session, subagent_step, subagents_unavailable,
    unified_exec_reply, unified_exec_session_id, update_plan_reply, view_image_reply,
    InvokeSubagentArgs, SubagentStep, UnifiedExecOutcome,
};
use agent_core::session::tools::{
    classify_function_call, item_messages, parse_container_exec_arguments, parse_failure,
    patch_params, resolve_path, route_response_item, unsupported_call, ItemRoute,
    ShellToolCallParams, ToolCall,
};
use agent_core::subagents::builder::SubagentBuilder;
use agent_core::subagents::config::{SubagentConfig, SubagentDiscoveryMode};
use agent_core::subagents::definition::{SubagentDefinition, SubagentScope};
use agent_core::subagents::inventory::SubagentInventory;
use agent_core::subagents::runner::SubagentRunner;

fn cmd(parts: &[&str]) -> Vec<String> {
    parts.iter().map(|s| s.to_string()).collect()
}

fn reply(call_id: &str, content: &str, success: Option<bool>) -> ResponseInputItem {
    ResponseInputItem::FunctionCallOutput {
        call_id: call_id.to_string(),
        output: FunctionCallOutputPayload { content: content.to_string(), success },
    }
}

fn turn_context() -> TurnContext {
    TurnContext {
        cwd: "/work".to_string(),
        base_instructions: None,
        user_instructions: Some("be brief".to_string()),
        approval_policy: AskForApproval::OnRequest,
        sandbox_policy: SandboxPolicy::ReadOnly,
        model: "gpt-5".to_string(),
        is_review_mode: false,
        include_plan_tool: false,
        include_apply_patch_tool: true,
    }
}

fn settings() -> LoopSettings {
    LoopSettings {
        plan_mode: PlanModeConfig::default(),
        include_plan_tool: false,
        include_apply_patch_tool: true,
        review_model: "gpt-5-codex".to_string(),
        review_instructions: "Check the code.".to_string(),
        compact_trigger: "Start Summarization".to_string(),
    }
}

fn facts() -> SubmissionFacts {
    SubmissionFacts {
        resolution: SlashResolution::NotCommand,
        attachments: Vec::new(),
        guidance: None,
        session_id: uuid::Uuid::new_v4(),
        capabilities: Vec::new(),
    }
}

fn submit(
    state: &mut SessionState,
    context: &mut TurnContext,
    id: &str,
    op: Op,
) -> (Vec<LoopAction>, bool) {
    handle_submission(
        state,
        &HookExecutor::default(),
        context,
        &settings(),
        Submission { id: id.to_string(), op },
        facts(),
    )
}

fn text_input(text: &str) -> Vec<InputItem> {
    vec![InputItem::Text { text: text.to_string() }]
}

fn inventory_with(name: &str, description: &str, discovery: SubagentDiscoveryMode) -> (SubagentConfig, SubagentInventory) {
    let config = SubagentConfig::enabled(discovery);
    let definition = SubagentDefinition {
        raw_name: name.to_string(),
        name: name.to_string(),
        description: description.to_string(),
        tools: vec!["git_diff".to_string()],
        model: None,
        instructions: "Look at the diff.".to_string(),
        scope: SubagentScope::Project,
        source_path: format!("/work/.codex/agents/{name}.md"),
        validation_errors: Vec::new(),
    };
    let inventory = SubagentBuilder::new(config.clone()).with_definition(definition).build();
    (config, inventory)
}

#[test]
fn function_calls_are_told_apart_by_name() {
    assert_eq!(classify_function_call("shell", None), ToolCall::Shell);
    assert_eq!(classify_function_call("container.exec", None), ToolCall::Shell);
    assert_eq!(classify_function_call("unified_exec", None), ToolCall::UnifiedExec);
    assert_eq!(classify_function_call("view_image", None), ToolCall::ViewImage);
    assert_eq!(classify_function_call("invoke_subagent", None), ToolCall::InvokeSubagent);
    assert_eq!(classify_function_call("apply_patch", None), ToolCall::ApplyPatch);
    assert_eq!(classify_function_call("update_plan", None), ToolCall::UpdatePlan);
    assert_eq!(classify_function_call("exec_command", None), ToolCall::ExecCommand);
    assert_eq!(classify_function_call("write_stdin", None), ToolCall::WriteStdin);
    assert_eq!(
        classify_function_call("srv__tool", Some(("srv".to_string(), "tool".to_string()))),
        ToolCall::Mcp { server: "srv".to_string(), tool: "tool".to_string() }
    );
    assert_eq!(
        classify_function_call("shell", Some(("srv".to_string(), "tool".to_string()))),
        ToolCall::Shell
    );
    assert_eq!(classify_function_call("mystery", None), ToolCall::Unsupported);
    assert_eq!(unsupported_call("c", "mystery"), reply("c", "unsupported call: mystery", None));
}

#[test]
fn arguments_that_cannot_be_read_are_answered() {
    assert_eq!(
        parse_failure("c", &ToolCall::Shell, "eof"),
        reply("c", "failed to parse function arguments: eof", None)
    );
    assert_eq!(
        parse_failure("c", &ToolCall::ApplyPatch, "eof"),
        reply("c", "failed to parse function arguments: eof", None)
    );
    for tool in [
        ToolCall::UnifiedExec,
        ToolCall::ViewImage,
        ToolCall::InvokeSubagent,
        ToolCall::ExecCommand,
        ToolCall::WriteStdin,
    ] {
        assert_eq!(
            parse_failure("c", &tool, "eof"),
            reply("c", "failed to parse function arguments: eof", Some(false))
        );
    }
    assert_eq!(
        parse_container_exec_arguments(Err("bad json".to_string()), "/work", Vec::new(), "c"),
        Err(reply("c", "failed to parse function arguments: bad json", None))
    );
    let shell = ShellToolCallParams {
        command: cmd(&["ls"]),
        workdir: Some("sub".to_string()),
        timeout_ms: Some(5),
        with_escalated_permissions: Some(true),
        justification: Some("why".to_string()),
    };
    let ready = parse_container_exec_arguments(Ok(shell), "/work", Vec::new(), "c").expect("ok");
    assert_eq!(ready.command, cmd(&["ls"]));
    assert_eq!(ready.cwd, "/work/sub");
    assert_eq!(ready.timeout_ms, Some(5));
    assert_eq!(ready.with_escalated_permissions, Some(true));
    assert_eq!(resolve_path("/work", None), "/work");
    assert_eq!(resolve_path("/work", Some("/abs".to_string())), "/abs");
    let patch = patch_params("*** Begin Patch", "/work");
    assert_eq!(patch.command, cmd(&["apply_patch", "*** Begin Patch"]));
    assert_eq!(patch.cwd, "/work");
    assert_eq!(patch.timeout_ms, None);
}

#[test]
fn items_of_an_answer_go_on_their_way() {
    let call = ResponseItem::FunctionCall {
        id: None,
        name: "shell".to_string(),
        arguments: "{}".to_string(),
        call_id: "c".to_string(),
    };
    assert!(matches!(
        route_response_item(call, false, false),
        ItemRoute::Function { name, arguments, call_id } if name == "shell" && arguments == "{}" && call_id == "c"
    ));
    let local = |call_id: Option<&str>, id: Option<&str>| ResponseItem::LocalShellCall {
        id: id.map(str::to_string),
        call_id: call_id.map(str::to_string),
        status: "in_progress".to_string(),
        action: LocalShellAction {
            command: cmd(&["ls"]),
            working_directory: Some("/w".to_string()),
            timeout_ms: Some(9),
        },
    };
    match route_response_item(local(Some("c"), Some("i")), false, false) {
        ItemRoute::Exec { params, call_id } => {
            assert_eq!(call_id, "c");
            assert_eq!(params.command, cmd(&["ls"]));
            assert_eq!(params.workdir.as_deref(), Some("/w"));
            assert_eq!(params.timeout_ms, Some(9));
        }
        other => panic!("unexpected: {other:?}"),
    }
    assert!(matches!(
        route_response_item(local(None, Some("i")), false, false),
        ItemRoute::Exec { call_id, .. } if call_id == "i"
    ));
    match route_response_item(local(None, None), false, false) {
        ItemRoute::Reply(answer) => {
            assert_eq!(answer, reply("", "LocalShellCall without call_id or id", None))
        }
        other => panic!("unexpected: {other:?}"),
    }
    let custom = |name: &str| ResponseItem::CustomToolCall {
        id: None,
        status: None,
        call_id: "k".to_string(),
        name: name.to_string(),
        input: "patch".to_string(),
    };
    assert!(matches!(
        route_response_item(custom("apply_patch"), false, false),
        ItemRoute::CustomPatch { input, call_id } if input == "patch" && call_id == "k"
    ));
    match route_response_item(custom("other"), false, false) {
        ItemRoute::Reply(answer) => assert_eq!(
            answer,
            ResponseInputItem::CustomToolCallOutput {
                call_id: "k".to_string(),
                output: "unsupported custom tool call: other".to_string()
            }
        ),
        other => panic!("unexpected: {other:?}"),
    }
    let message = ResponseItem::Message {
        id: None,
        role: "assistant".to_string(),
        content: vec![
            ContentItem::OutputText { text: "one".to_string() },
            ContentItem::InputText { text: "skip".to_string() },
            ContentItem::OutputText { text: "two".to_string() },
        ],
    };
    match route_response_item(message.clone(), false, false) {
        ItemRoute::Events(msgs) => assert!(matches!(
            &msgs[..],
            [EventMsg::AgentMessage { message: a }, EventMsg::AgentMessage { message: b }]
                if a == "one" && b == "two"
        )),
        other => panic!("unexpected: {other:?}"),
    }
    assert!(matches!(
        route_response_item(message, true, false),
        ItemRoute::Events(msgs) if msgs.is_empty()
    ));
    let reasoning = ResponseItem::Reasoning {
        id: "r".to_string(),
        summary: vec!["why".to_string()],
        content: Some(vec!["raw".to_string()]),
        encrypted_content: None,
    };
    assert_eq!(item_messages(&reasoning, false).len(), 1);
    assert!(matches!(
        &item_messages(&reasoning, true)[..],
        [EventMsg::AgentReasoning { text: a }, EventMsg::AgentReasoningRawContent { text: b }]
            if a == "why" && b == "raw"
    ));
    let search = ResponseItem::WebSearchCall { id: None, status: None, query: "rust".to_string() };
    assert!(matches!(
        &item_messages(&search, false)[..],
        [EventMsg::WebSearchEnd { call_id, query }] if call_id.is_empty() && query == "rust"
    ));
    assert!(matches!(
        route_response_item(ResponseItem::Other, false, false),
        ItemRoute::Events(m) if m.is_empty()
    ));
    assert_eq!(
        as_custom_reply(reply("c", "text", Some(true))),
        ResponseInputItem::CustomToolCallOutput { call_id: "c".to_string(), output: "text".to_string() }
    );
}

fn plan_session(allowed: &[&str]) -> PlanModeSession {
    let config = PlanModeConfig {
        allowed_read_only_tools: allowed.iter().map(|s| s.to_string()).collect(),
        ..Default::default()
    };
    PlanModeSession::new(uuid::Uuid::new_v4(), AskForApproval::OnRequest, Vec::new(), &config, true)
}

fn image(within: bool) -> AttachmentFact {
    AttachmentFact {
        absolute: "/work/a.png".to_string(),
        canonical: Some("/work/a.png".to_string()),
        within_workspace: within,
    }
}

#[test]
fn images_are_attached_where_that_is_allowed() {
    let mut state = SessionState::new();
    assert_eq!(
        view_image_reply(&mut state, "c", image(true), "/work"),
        reply("c", "unable to attach image (no active task)", Some(false))
    );
    state.set_task(AgentTask { sub_id: "s".to_string(), kind: AgentTaskKind::Regular });
    assert_eq!(
        view_image_reply(&mut state, "c", image(true), "/work"),
        reply("c", "attached local image path", Some(true))
    );
    assert_eq!(state.pending_input.len(), 1);

    state.plan_mode = Some(plan_session(&[]));
    match view_image_reply(&mut state, "c", image(true), "/work") {
        ResponseInputItem::FunctionCallOutput { output, .. } => {
            assert_eq!(output.success, Some(false));
            assert_eq!(
                output.content,
                "Attachments are disabled while Plan Mode is active. Remove the files or exit Plan Mode before continuing."
            );
        }
        other => panic!("unexpected: {other:?}"),
    }
    state.plan_mode = Some(plan_session(&["attachments.read"]));
    assert_eq!(
        view_image_reply(&mut state, "c", image(true), "/work"),
        reply("c", "attached local image path", Some(true))
    );
    match view_image_reply(&mut state, "c", image(false), "/work") {
        ResponseInputItem::FunctionCallOutput { output, .. } => assert_eq!(output.success, Some(false)),
        other => panic!("unexpected: {other:?}"),
    }
    assert_eq!(state.pending_input.len(), 2);
}

#[test]
fn the_plan_tool_updates_the_plan_of_plan_mode() {
    let update = || UpdatePlanArgs {
        explanation: Some("because".to_string()),
        plan: vec![
            PlanItemArg { step: "read".to_string(), status: StepStatus::Completed },
            PlanItemArg { step: "write".to_string(), status: StepStatus::Pending },
        ],
    };
    let mut state = SessionState::new();
    let (event, answer) = update_plan_reply(&mut state, "s", "c", Ok(update()));
    assert!(event.is_none());
    assert_eq!(answer, reply("c", "Plan updated", Some(true)));
    state.plan_mode = Some(plan_session(&[]));
    let (event, _) = update_plan_reply(&mut state, "s", "c", Ok(update()));
    let event = event.expect("told");
    assert_eq!(event.id, "s");
    assert!(matches!(event.msg, EventMsg::PlanModeUpdated { .. }));
    let artifact = state.plan_mode.as_ref().unwrap().plan_artifact();
    assert_eq!(artifact.next_actions.len(), 2);
    assert_eq!(artifact.assumptions, vec!["because".to_string()]);
    let (event, answer) = update_plan_reply(&mut state, "s", "c", Err("bad".to_string()));
    assert!(event.is_none());
    assert_eq!(answer, reply("c", "failed to parse function arguments: bad", None));
}

#[test]
fn session_ids_of_the_unified_exec_are_numbers() {
    assert_eq!(unified_exec_session_id("c", &None), Ok(None));
    assert_eq!(unified_exec_session_id("c", &Some("42".to_string())), Ok(Some(42)));
    assert_eq!(unified_exec_session_id("c", &Some("-7".to_string())), Ok(Some(-7)));
    assert_eq!(
        unified_exec_session_id("c", &Some("abc".to_string())),
        Err(reply(
            "c",
            "invalid session_id: abc due to error invalid digit found in string",
            Some(false)
        ))
    );
    assert_eq!(
        unified_exec_session_id("c", &Some("99999999999".to_string())),
        Err(reply(
            "c",
            "invalid session_id: 99999999999 due to error number too large to fit in target type",
            Some(false)
        ))
    );
    assert_eq!(
        unified_exec_reply("c", UnifiedExecOutcome::Output("{}".to_string())),
        reply("c", "{}", Some(true))
    );
    assert_eq!(
        unified_exec_reply("c", UnifiedExecOutcome::NotSerialized("e".to_string())),
        reply("c", "failed to serialize unified exec output: e", Some(false))
    );
    assert_eq!(
        unified_exec_reply("c", UnifiedExecOutcome::Failed("e".to_string())),
        reply("c", "unified exec failed: e", Some(false))
    );
}

#[test]
fn a_sub_agent_is_confirmed_before_it_runs() {
    let (config, inventory) = inventory_with("code-inspector", "Looks at diffs", SubagentDiscoveryMode::Auto);
    let runner = SubagentRunner::new(&config, &inventory);
    let args = InvokeSubagentArgs {
        name: "  Code Inspector ".to_string(),
        instructions: Some("  focus on tests  ".to_string()),
        requested_tools: cmd(&["git_diff"]),
        model: None,
        confirmed: false,
    };
    let session = subagent_session(&args, "parent-1", config.discovery);
    assert_eq!(session.subagent_name, "code-inspector");
    assert_eq!(session.parent_session_id.as_deref(), Some("parent-1"));
    assert_eq!(session.extra_instructions.as_deref(), Some("focus on tests"));
    assert_eq!(session.execution_log, vec!["instructions: focus on tests".to_string()]);
    assert!(!session.confirmed);

    let mut state = SessionState::new();
    let (event, pending, refusal) = match subagent_step(&mut state, &runner, session, "sub", "call") {
        SubagentStep::Ask { event, pending, refusal } => (event, pending, refusal),
        other => panic!("unexpected: {other:?}"),
    };
    assert_eq!(event.id, "sub");
    match &event.msg {
        EventMsg::SubagentApprovalRequest(request) => {
            assert_eq!(request.subagent, "code-inspector");
            assert_eq!(request.description.as_deref(), Some("Looks at diffs"));
            assert_eq!(request.extra_instructions.as_deref(), Some("focus on tests"));
            assert_eq!(request.allowed_tools, cmd(&["git_diff"]));
            assert_eq!(request.requested_tools, cmd(&["git_diff"]));
            assert_eq!(request.model, None);
        }
        other => panic!("unexpected: {other:?}"),
    }
    assert_eq!(state.pending_subagent_approvals, vec!["code-inspector".to_string()]);
    assert_eq!(
        refusal,
        reply("call", "Subagent 'code-inspector' invocation denied by user.", Some(false))
    );

    let denied = on_subagent_decision(pending.clone(), refusal, SubagentApprovalDecision::Denied);
    assert_eq!(
        denied,
        Err(reply("call", "Subagent 'code-inspector' invocation denied by user.", Some(false)))
    );
    let confirmed = on_subagent_decision(
        pending,
        reply("call", "unused", None),
        SubagentApprovalDecision::Approved,
    )
    .expect("confirmed");
    assert!(confirmed.confirmed);
    match subagent_step(&mut state, &runner, confirmed, "sub", "call") {
        SubagentStep::Run(prepared) => {
            assert_eq!(prepared.session.subagent_name, "code-inspector");
            assert_eq!(prepared.record.definition.name, "code-inspector");
        }
        other => panic!("unexpected: {other:?}"),
    }
}

#[test]
fn refused_sub_agent_requests_are_worded() {
    let (config, inventory) = inventory_with("helper", "", SubagentDiscoveryMode::Manual);
    let runner = SubagentRunner::new(&config, &inventory);
    let mut state = SessionState::new();
    let request = |name: &str, tools: &[&str]| {
        subagent_session(
            &InvokeSubagentArgs {
                name: name.to_string(),
                instructions: Some("   ".to_string()),
                requested_tools: cmd(tools),
                model: Some("m".to_string()),
                confirmed: false,
            },
            "p",
            SubagentDiscoveryMode::Manual,
        )
    };
    let session = request("helper", &[]);
    assert!(session.confirmed, "agents named by hand need no confirmation");
    assert_eq!(session.extra_instructions, None);
    assert!(session.execution_log.is_empty());
    assert_eq!(session.resolved_model.as_deref(), Some("m"));
    match subagent_step(&mut state, &runner, request("nobody", &[]), "s", "c") {
        SubagentStep::Reply(answer) => {
            assert_eq!(answer, reply("c", "No subagent named 'nobody'.", Some(false)))
        }
        other => panic!("unexpected: {other:?}"),
    }
    match subagent_step(&mut state, &runner, request("helper", &["shell"]), "s", "c") {
        SubagentStep::Reply(answer) => assert_eq!(
            answer,
            reply("c", "Tool 'shell' not allowed for subagent 'helper'.", Some(false))
        ),
        other => panic!("unexpected: {other:?}"),
    }
    let off = SubagentConfig::disabled();
    let none = SubagentInventory::empty();
    match subagent_step(&mut state, &SubagentRunner::new(&off, &none), request("helper", &[]), "s", "c") {
        SubagentStep::Reply(answer) => {
            assert_eq!(answer, reply("c", "Subagents feature is disabled.", Some(false)))
        }
        other => panic!("unexpected: {other:?}"),
    }
    assert_eq!(
        subagents_unavailable("c", false, true),
        Some(reply("c", "Subagents feature is disabled for this session.", Some(false)))
    );
    assert_eq!(
        subagents_unavailable("c", true, false),
        Some(reply(
            "c",
            "Subagents configuration is unavailable; enable subagents.enabled in config.",
            Some(false)
        ))
    );
    assert_eq!(subagents_unavailable("c", true, true), None);
    assert_eq!(subagent_result_reply("c", Ok("{}".to_string())), reply("c", "{}", Some(true)));
    assert_eq!(subagent_result_reply("c", Err("e".to_string())), reply("c", "e", Some(false)));
}

#[test]
fn plan_mode_keeps_tools_of_mcp_servers_from_being_called() {
    let mut state = SessionState::new();
    let (events, blocked) = gate_tool_call(&mut state, "s", "srv", "write", None);
    assert!(events.is_empty());
    assert_eq!(blocked, None);
    state.plan_mode = Some(plan_session(&["srv__list_*", "read"]));
    assert_eq!(gate_tool_call(&mut state, "s", "srv", "list_all", None).1, None);
    assert_eq!(gate_tool_call(&mut state, "s", "other", "read", None).1, None);
    let (events, blocked) =
        gate_tool_call(&mut state, "s", "srv", "write", Some("{\"a\":1}".to_string()));
    let message = "Plan Mode blocked MCP tool srv::write. Exit Plan Mode or update plan_mode.allowed_read_only_tools to run it.";
    assert_eq!(blocked.as_deref(), Some(message));
    assert!(matches!(
        &events.iter().map(|e| &e.msg).collect::<Vec<_>>()[..],
        [EventMsg::PlanModeUpdated { .. }, EventMsg::BackgroundEvent { message: m }] if m == message
    ));
    let entry = &state.plan_mode.as_ref().unwrap().plan_artifact().steps[0];
    assert_eq!(entry.summary, "Call MCP tool srv::write");
    assert_eq!(entry.details.as_deref(), Some("arguments: {\"a\":1}"));
}

#[test]
fn approvals_are_asked_for_under_the_submission() {
    let mut state = SessionState::new();
    let event = request_command_approval(
        &mut state,
        "s",
        "c",
        cmd(&["ls"]),
        "/work".to_string(),
        None,
    );
    assert_eq!(event.id, "s");
    assert!(matches!(&event.msg, EventMsg::ExecApprovalRequest { call_id, .. } if call_id == "c"));
    let event = request_patch_approval(
        &mut state,
        "second",
        "c2",
        cmd(&["a.rs"]),
        Some("why".to_string()),
        Some("/root".to_string()),
    );
    assert!(matches!(
        &event.msg,
        EventMsg::ApplyPatchApprovalRequest { call_id, changes, reason, grant_root }
            if call_id == "c2" && changes.len() == 1 && reason.as_deref() == Some("why")
                && grant_root.as_deref() == Some("/root")
    ));
    assert_eq!(state.pending_approvals, vec!["s".to_string(), "second".to_string()]);
}

#[test]
fn user_input_starts_a_task_or_joins_the_running_one() {
    let mut state = SessionState::new();
    let mut context = turn_context();
    let (actions, stop) = submit(&mut state, &mut context, "first", Op::UserInput { items: text_input("hi") });
    assert!(!stop);
    match &actions[..] {
        [LoopAction::Spawn { task, input, context }] => {
            assert_eq!(task.sub_id, "first");
            assert_eq!(task.kind, AgentTaskKind::Regular);
            assert_eq!(input, &text_input("hi"));
            assert_eq!(context.model, "gpt-5");
        }
        other => panic!("unexpected: {other:?}"),
    }
    assert_eq!(state.current_task.as_ref().unwrap().sub_id, "first");
    let (actions, _) = submit(&mut state, &mut context, "second", Op::UserInput { items: text_input("more") });
    assert!(actions.is_empty());
    assert_eq!(state.pending_input.len(), 1);
    assert_eq!(state.current_task.as_ref().unwrap().sub_id, "first");
}

#[test]
fn slash_commands_change_the_input_or_are_refused() {
    let mut state = SessionState::new();
    let mut context = turn_context();
    let mut with = facts();
    with.resolution = SlashResolution::Resolved {
        rendered_body: "Deploy web".to_string(),
        model: Some("gpt-4o".to_string()),
    };
    let items = vec![
        InputItem::Image { image_url: "u".to_string() },
        InputItem::Text { text: "/deploy web".to_string() },
        InputItem::Text { text: "and more".to_string() },
    ];
    let (actions, _) = handle_submission(
        &mut state,
        &HookExecutor::default(),
        &mut context,
        &settings(),
        Submission { id: "s".to_string(), op: Op::UserInput { items } },
        with,
    );
    match &actions[..] {
        [LoopAction::Spawn { input, context, .. }] => {
            assert_eq!(
                input,
                &vec![
                    InputItem::Image { image_url: "u".to_string() },
                    InputItem::Text { text: "Deploy web".to_string() },
                    InputItem::Text { text: "and more".to_string() },
                ]
            );
            assert_eq!(context.model, "gpt-4o");
        }
        other => panic!("unexpected: {other:?}"),
    }
    assert_eq!(
        rebuild_items(&vec![InputItem::LocalImage { path: "p".to_string() }], "body"),
        vec![
            InputItem::Text { text: "body".to_string() },
            InputItem::LocalImage { path: "p".to_string() }
        ]
    );
    assert_eq!(first_text(&vec![InputItem::Image { image_url: "u".to_string() }]), None);
    assert_eq!(
        slash_error_message(&SlashResolution::NotFound {
            name: "dep".to_string(),
            suggestions: cmd(&["project:deploy", "user:deps"])
        })
        .as_deref(),
        Some("Unknown slash command: /dep. Did you mean: project:deploy, user:deps")
    );
    assert_eq!(
        slash_error_message(&SlashResolution::NotFound { name: "x".to_string(), suggestions: Vec::new() })
            .as_deref(),
        Some("Unknown slash command: /x")
    );
    assert_eq!(
        slash_error_message(&SlashResolution::Ambiguous { matches: cmd(&["a", "b"]) }).as_deref(),
        Some("Slash command is ambiguous; try one of: a, b")
    );
    assert_eq!(slash_error_message(&SlashResolution::NotCommand), None);

    let mut state = SessionState::new();
    let mut refused = facts();
    refused.resolution = SlashResolution::Interpolation("interpolation error: x".to_string());
    let (actions, _) = handle_submission(
        &mut state,
        &HookExecutor::default(),
        &mut context,
        &settings(),
        Submission { id: "s".to_string(), op: Op::UserInput { items: text_input("/x") } },
        refused,
    );
    assert!(matches!(
        &actions[..],
        [LoopAction::Emit(e)] if matches!(&e.msg, EventMsg::Error { message } if message == "interpolation error: x")
    ));
    assert!(state.current_task.is_none());
}

#[test]
fn a_new_task_replaces_the_running_one_and_interrupts_stop_it() {
    let mut state = SessionState::new();
    let mut context = turn_context();
    submit(&mut state, &mut context, "first", Op::UserInput { items: text_input("hi") });
    let (actions, _) = submit(&mut state, &mut context, "rev", Op::Review { prompt: "check".to_string() });
    match &actions[..] {
        [LoopAction::Abort { task, reason }, LoopAction::Spawn { task: new_task, input, context }, LoopAction::Emit(event)] => {
            assert_eq!(task.sub_id, "first");
            assert_eq!(*reason, TurnAbortReason::Replaced);
            assert_eq!(new_task.kind, AgentTaskKind::Review);
            assert_eq!(input, &text_input("check"));
            assert!(context.is_review_mode);
            assert_eq!(context.base_instructions.as_deref(), Some("Check the code."));
            assert_eq!(context.user_instructions, None);
            assert_eq!(context.model, "gpt-5-codex");
            assert!(matches!(&event.msg, EventMsg::EnteredReviewMode { prompt } if prompt == "check"));
            assert_eq!(event.id, "rev");
        }
        other => panic!("unexpected: {other:?}"),
    }
    state.await_approval("rev");
    let (actions, _) = submit(&mut state, &mut context, "i", Op::Interrupt);
    assert!(matches!(
        &actions[..],
        [LoopAction::Abort { task, reason: TurnAbortReason::Interrupted }] if task.sub_id == "rev"
    ));
    assert!(state.current_task.is_none());
    assert!(state.pending_approvals.is_empty());
    assert!(submit(&mut state, &mut context, "i", Op::Interrupt).0.is_empty());
}

#[test]
fn answers_to_approval_requests_are_handed_on() {
    let mut state = SessionState::new();
    let mut context = turn_context();
    state.await_approval("first");
    let (actions, _) = submit(
        &mut state,
        &mut context,
        "x",
        Op::ExecApproval { id: "first".to_string(), decision: ReviewDecision::Approved },
    );
    assert!(matches!(
        &actions[..],
        [LoopAction::DeliverApproval { sub_id, decision: ReviewDecision::Approved }] if sub_id == "first"
    ));
    let (actions, _) = submit(
        &mut state,
        &mut context,
        "x",
        Op::PatchApproval { id: "first".to_string(), decision: ReviewDecision::Denied },
    );
    assert!(actions.is_empty(), "nobody waits any more");
    state.set_task(AgentTask { sub_id: "t".to_string(), kind: AgentTaskKind::Regular });
    let (actions, _) = submit(
        &mut state,
        &mut context,
        "x",
        Op::ExecApproval { id: "t".to_string(), decision: ReviewDecision::Abort },
    );
    assert!(matches!(&actions[..], [LoopAction::Abort { reason: TurnAbortReason::Interrupted, .. }]));
    state.await_subagent_approval("helper");
    let (actions, _) = submit(
        &mut state,
        &mut context,
        "x",
        Op::SubagentApproval { name: "helper".to_string(), decision: SubagentApprovalDecision::Approved },
    );
    assert!(matches!(
        &actions[..],
        [LoopAction::DeliverSubagentApproval { name, decision: SubagentApprovalDecision::Approved }]
            if name == "helper"
    ));
}

#[test]
fn plan_mode_is_entered_left_and_applied() {
    let mut state = SessionState::new();
    let mut context = turn_context();
    let (actions, _) = submit(&mut state, &mut context, "p", Op::EnterPlanMode);
    assert!(matches!(
        &actions[..],
        [LoopAction::Emit(e)] if matches!(&e.msg, EventMsg::PlanModeActivated { session } if session.entered_from == AskForApproval::OnRequest)
    ));
    assert!(context.include_plan_tool);
    assert!(!context.include_apply_patch_tool);
    assert!(state.plan_mode_prompt_recorded);
    let (actions, _) = submit(&mut state, &mut context, "p", Op::EnterPlanMode);
    assert!(matches!(
        &actions[..],
        [LoopAction::Emit(e)] if matches!(&e.msg, EventMsg::Error { message } if message == "Plan Mode is already active")
    ));
    context.approval_policy = AskForApproval::Never;
    let (actions, _) = submit(&mut state, &mut context, "p", Op::ExitPlanMode);
    assert!(matches!(
        &actions[..],
        [LoopAction::Emit(e)] if matches!(&e.msg, EventMsg::PlanModeExited { previous_mode: AskForApproval::OnRequest })
    ));
    assert_eq!(context.approval_policy, AskForApproval::OnRequest);
    assert!(state.plan_mode.is_none());
    assert!(!context.include_plan_tool);
    assert!(context.include_apply_patch_tool);
    let (actions, _) = submit(&mut state, &mut context, "p", Op::ExitPlanMode);
    assert!(matches!(
        &actions[..],
        [LoopAction::Emit(e)] if matches!(&e.msg, EventMsg::Error { message } if message == "Plan Mode is not active")
    ));

    submit(&mut state, &mut context, "p", Op::EnterPlanMode);
    state.capture_plan_entry(agent_core::plan_mode::entry::PlanEntryType::Command, "cargo test", None);
    let (actions, _) = submit(
        &mut state,
        &mut context,
        "apply",
        Op::ApplyPlanMode { target_mode: Some(AskForApproval::OnFailure) },
    );
    match &actions[..] {
        [LoopAction::Emit(applied), LoopAction::Persist(items), LoopAction::Emit(summary), LoopAction::Spawn { task, input, context }] => {
            assert!(matches!(
                &applied.msg,
                EventMsg::PlanModeApplied { target_mode: AskForApproval::OnFailure, plan_entries: 1 }
            ));
            assert_eq!(items.len(), 1);
            assert!(matches!(&summary.msg, EventMsg::AgentMessage { message } if message.contains("cargo test")));
            assert_eq!(task.sub_id, "plan-implementation-0");
            assert_eq!(input.len(), 1);
            assert!(matches!(&input[0], InputItem::Text { text } if text.starts_with("(auto) Plan approved.")));
            assert_eq!(context.approval_policy, AskForApproval::OnFailure);
        }
        other => panic!("unexpected: {other:?}"),
    }
    assert!(state.plan_mode.is_none());
    assert_eq!(context.approval_policy, AskForApproval::OnFailure);
    assert_eq!(state.current_task.as_ref().unwrap().sub_id, "plan-implementation-0");
    assert_eq!(state.history.contents().len(), 1);
}

#[test]
fn the_context_of_the_turns_is_overridden() {
    let mut state = SessionState::new();
    let mut context = turn_context();
    let (actions, _) = submit(
        &mut state,
        &mut context,
        "o",
        Op::OverrideTurnContext {
            cwd: Some("/other".to_string()),
            approval_policy: None,
            sandbox_policy: Some(SandboxPolicy::DangerFullAccess),
            model: Some("gpt-4o".to_string()),
        },
    );
    assert!(matches!(
        &actions[..],
        [LoopAction::RecordEnvironment { cwd, approval_policy: None, sandbox_policy: Some(SandboxPolicy::DangerFullAccess) }]
            if cwd.as_deref() == Some("/other")
    ));
    assert_eq!(context.cwd, "/other");
    assert_eq!(context.model, "gpt-4o");
    assert_eq!(context.approval_policy, AskForApproval::OnRequest);
    let (actions, _) = submit(
        &mut state,
        &mut context,
        "o",
        Op::OverrideTurnContext { cwd: None, approval_policy: None, sandbox_policy: None, model: Some("m".to_string()) },
    );
    assert!(actions.is_empty());

    let (actions, _) = submit(
        &mut state,
        &mut context,
        "t",
        Op::UserTurn {
            items: text_input("go"),
            cwd: "/other".to_string(),
            approval_policy: AskForApproval::Never,
            sandbox_policy: SandboxPolicy::DangerFullAccess,
            model: "gpt-5".to_string(),
        },
    );
    assert!(matches!(
        &actions[..],
        [LoopAction::RecordEnvironment { .. }, LoopAction::Spawn { context, .. }]
            if context.approval_policy == AskForApproval::Never && context.model == "gpt-5"
    ));
    assert_eq!(context.approval_policy, AskForApproval::Never);
}

#[test]
fn the_other_requests_are_answered_or_handed_on() {
    let mut state = SessionState::new();
    let mut context = turn_context();
    let (actions, _) = submit(&mut state, &mut context, "c", Op::Compact);
    assert!(matches!(
        &actions[..],
        [LoopAction::Spawn { task, input, .. }]
            if task.kind == AgentTaskKind::Compact && input == &text_input("Start Summarization")
    ));
    let (actions, _) = submit(&mut state, &mut context, "c2", Op::Compact);
    assert!(actions.is_empty());
    assert_eq!(state.pending_input.len(), 1);

    let (actions, _) = submit(
        &mut state,
        &mut context,
        "h",
        Op::HookList(HookListRequest { event: None, scope: None }),
    );
    assert!(matches!(
        &actions[..],
        [LoopAction::Emit(e)] if matches!(&e.msg, EventMsg::HookListResponse { registry } if registry.events.is_empty())
    ));
    let request = agent_core::hooks::inspect::HookExecLogRequest {
        since: None,
        event: None,
        hook_id: None,
        tail: Some(5),
    };
    let (actions, _) = submit(&mut state, &mut context, "h", Op::HookExecLog(request));
    assert!(matches!(
        &actions[..],
        [LoopAction::Emit(e)] if matches!(&e.msg, EventMsg::HookExecLogResponse { records } if records.is_empty())
    ));
    let validate = agent_core::hooks::inspect::HookValidateRequest {
        scope: Some(agent_core::hooks::scope::HookScopeFilter::Project),
    };
    let (actions, _) = submit(&mut state, &mut context, "h", Op::HookValidate(validate));
    assert!(matches!(
        &actions[..],
        [LoopAction::Emit(e)] if matches!(
            &e.msg,
            EventMsg::HookValidationResult { summary }
                if summary.status == agent_core::hooks::inspect::HookValidationStatus::Okay
        )
    ));
    let (actions, _) = submit(&mut state, &mut context, "h", Op::HookReload);
    assert!(matches!(
        &actions[..],
        [LoopAction::Emit(e)] if matches!(
            &e.msg,
            EventMsg::HookReloadResult { result }
                if !result.reloaded && result.message.as_deref() == Some("hook reload placeholder")
        )
    ));
    assert!(matches!(
        &submit(&mut state, &mut context, "x", Op::AddToHistory { text: "t".to_string() }).0[..],
        [LoopAction::AppendHistory { text }] if text == "t"
    ));
    assert!(matches!(
        &submit(&mut state, &mut context, "x", Op::GetHistoryEntryRequest { offset: 3, log_id: 9 }).0[..],
        [LoopAction::LookupHistory { offset: 3, log_id: 9 }]
    ));
    assert!(matches!(&submit(&mut state, &mut context, "x", Op::ListMcpTools).0[..], [LoopAction::ListMcpTools]));
    assert!(matches!(
        &submit(&mut state, &mut context, "x", Op::ListCustomPrompts).0[..],
        [LoopAction::ListCustomPrompts]
    ));
    assert!(matches!(&submit(&mut state, &mut context, "x", Op::GetPath).0[..], [LoopAction::ReportPath]));
    let (actions, stop) = submit(&mut state, &mut context, "bye", Op::Shutdown);
    assert!(stop);
    assert!(matches!(&actions[..], [LoopAction::CloseRollout]));
    assert!(matches!(
        &on_rollout_closed("bye", true)[..],
        [LoopAction::Emit(a), LoopAction::Emit(b)]
            if matches!(&a.msg, EventMsg::Error { message } if message == "Failed to shutdown rollout recorder")
                && matches!(b.msg, EventMsg::ShutdownComplete)
    ));
    assert_eq!(on_rollout_closed("bye", false).len(), 1);
    let note = |outcome| match &on_reload_slash_commands("r", outcome)[..] {
        [LoopAction::Emit(e)] => match &e.msg {
            EventMsg::BackgroundEvent { message } => format!("note: {message}"),
            EventMsg::Error { message } => format!("error: {message}"),
            other => panic!("unexpected: {other:?}"),
        },
        other => panic!("unexpected: {other:?}"),
    };
    assert_eq!(note(Some(Ok(0))), "note: Reloaded 0 slash commands");
    assert_eq!(note(Some(Ok(1))), "note: Reloaded 1 slash command");
    assert_eq!(note(Some(Ok(12))), "note: Reloaded 12 slash commands");
    assert_eq!(note(Some(Err("io".to_string()))), "error: Failed to reload slash commands: io");
    assert_eq!(note(None), "error: Slash commands are not enabled for this session.");
}

#[test]
fn guidance_for_sub_agents_is_put_into_the_instructions() {
    assert_eq!(build_subagent_guidance(&SubagentInventory::empty()), None);
    let (_, inventory) = inventory_with("helper", "  Helps  ", SubagentDiscoveryMode::Auto);
    let guidance = build_subagent_guidance(&inventory).expect("guidance");
    assert!(guidance.starts_with("Subagent delegation guidance:\n- Read available"));
    assert!(guidance.ends_with("Available subagents:\n  - helper: Helps"));
    assert_eq!(guidance.lines().count(), 6);

    let block = "--- subagent-guidance ---\nG\n--- end-subagent-guidance ---";
    let merge = |existing: Option<&str>| {
        merge_guidance(existing.map(str::to_string), Some("G".to_string()))
    };
    assert_eq!(merge(None).as_deref(), Some(block));
    assert_eq!(merge(Some("")).as_deref(), Some(block));
    assert_eq!(merge(Some("rules")), Some(format!("rules\n\n{block}")));
    assert_eq!(merge(Some("rules\n")), Some(format!("rules\n\n{block}")));
    assert_eq!(
        merge(Some("a\n--- subagent-guidance ---\nold\n--- end-subagent-guidance ---\nz")),
        Some(format!("a\n{block}\nz"))
    );
    assert_eq!(
        merge(Some("a\n--- subagent-guidance ---\nold and unfinished")),
        Some(format!("a\n{block}"))
    );
    assert_eq!(merge_guidance(Some("keep".to_string()), None).as_deref(), Some("keep"));
}

fn configure(cwd: &str) -> ConfigureSession {
    ConfigureSession {
        model: "gpt-5".to_string(),
        user_instructions: None,
        base_instructions: Some("base".to_string()),
        approval_policy: AskForApproval::OnFailure,
        sandbox_policy: SandboxPolicy::ReadOnly,
        cwd: cwd.to_string(),
    }
}

fn session_settings(plan: bool) -> SessionSettings {
    SessionSettings {
        plan_mode: PlanModeConfig { plan_enabled: plan, ..Default::default() },
        include_plan_tool: false,
        include_apply_patch_tool: true,
        network_enabled: false,
    }
}

#[test]
fn a_session_begins_with_its_first_events_in_order() {
    let startup = StartupFacts {
        slash_commands_error: Some("no dir".to_string()),
        mcp_manager_error: None,
        failed_clients: vec![("db".to_string(), "refused".to_string())],
    };
    let tools = vec![McpToolInfo {
        qualified_name: "db__query".to_string(),
        name: "query".to_string(),
        read_only_hint: Some(true),
        open_world_hint: None,
    }];
    let context_items = vec![ResponseItem::Message {
        id: None,
        role: "user".to_string(),
        content: vec![ContentItem::InputText { text: "env".to_string() }],
    }];
    let session = new_session(
        configure("/work"),
        &session_settings(true),
        uuid::Uuid::new_v4(),
        &tools,
        None,
        &startup,
        context_items.clone(),
        &InitialHistory::New,
    )
    .expect("a session");
    let kinds: Vec<String> = session
        .events
        .iter()
        .map(|e| {
            assert_eq!(e.id, "");
            match &e.msg {
                EventMsg::SessionConfigured => "configured".to_string(),
                EventMsg::Error { message } => format!("error: {message}"),
                EventMsg::PlanModeActivated { .. } => "plan".to_string(),
                other => panic!("unexpected: {other:?}"),
            }
        })
        .collect();
    assert_eq!(
        kinds,
        vec![
            "configured",
            "error: Failed to load slash commands: no dir",
            "error: MCP client for `db` failed to start: refused",
            "plan"
        ]
    );
    assert_eq!(session.state.history.contents(), context_items);
    assert_eq!(session.record.items, context_items);
    assert!(session.state.plan_mode.is_some());
    assert!(session.state.plan_mode_prompt_recorded);
    assert!(session.turn_context.include_plan_tool);
    assert!(!session.turn_context.include_apply_patch_tool);
    assert_eq!(session.turn_context.cwd, "/work");
    assert_eq!(session.turn_context.approval_policy, AskForApproval::OnFailure);

    let plain = new_session(
        configure("/work"),
        &session_settings(false),
        uuid::Uuid::new_v4(),
        &Vec::new(),
        None,
        &StartupFacts { slash_commands_error: None, mcp_manager_error: None, failed_clients: Vec::new() },
        Vec::new(),
        &InitialHistory::New,
    )
    .expect("a session");
    assert_eq!(plain.events.len(), 1);
    assert!(plain.state.plan_mode.is_none());
    assert!(plain.turn_context.include_apply_patch_tool);
}

#[test]
fn a_session_does_not_begin_in_a_relative_directory() {
    let quiet = StartupFacts { slash_commands_error: None, mcp_manager_error: None, failed_clients: Vec::new() };
    let err = new_session(
        configure("relative/dir"),
        &session_settings(false),
        uuid::Uuid::new_v4(),
        &Vec::new(),
        None,
        &quiet,
        Vec::new(),
        &InitialHistory::New,
    )
    .expect_err("refused");
    assert_eq!(err, "cwd is not absolute: \"relative/dir\"");
    let err = configure_session(
        configure("x"),
        &session_settings(false),
        uuid::Uuid::new_v4(),
        &Vec::new(),
        None,
        &quiet,
        Vec::new(),
        &InitialHistory::New,
        false,
        "shown",
    )
    .expect_err("refused");
    assert_eq!(err, "cwd is not absolute: shown");
}

#[test]
fn refused_attachments_are_worded_and_an_attached_image_waits_as_input() {
    let mut state = SessionState::new();
    state.set_task(AgentTask { sub_id: "s".to_string(), kind: AgentTaskKind::Regular });
    state.plan_mode = Some(plan_session(&["attachments.read"]));
    assert_eq!(
        view_image_reply(&mut state, "c", image(false), "/work"),
        reply(
            "c",
            "Plan Mode only permits attachments from /work. Remove /work/a.png or exit Plan Mode before continuing.",
            Some(false)
        )
    );
    let unknown = AttachmentFact {
        absolute: "/x/b.png".to_string(),
        canonical: None,
        within_workspace: false,
    };
    assert_eq!(
        view_image_reply(&mut state, "c", unknown, "/work"),
        reply(
            "c",
            "Plan Mode could not verify attachment path /x/b.png. Remove the attachment or exit Plan Mode.",
            Some(false)
        )
    );
    assert!(state.pending_input.is_empty());
    assert_eq!(
        view_image_reply(&mut state, "c", image(true), "/work"),
        reply("c", "attached local image path", Some(true))
    );
    assert_eq!(
        state.pending_input,
        vec![ResponseInputItem::Message { role: "user".to_string(), content: Vec::new() }]
    );
}
