use agent_core::protocol::events::EventMsg;
use agent_core::subagents::builder::SubagentBuilder;
use agent_core::subagents::config::{SubagentConfig, SubagentDiscoveryMode};
use agent_core::subagents::definition::{SubagentDefinition, SubagentScope};
use agent_core::subagents::discovery::{
    detect_scope, discover_from_source, DiscoverySource, SourceFile, SubagentSourceTree,
};
use agent_core::subagents::executor::{
    artifact_uri, begin_subagent_run, capture_agent_output, finish_subagent_run,
    format_instruction_block, observe_event, transcript_file_name, Observation,
};
use agent_core::subagents::inventory::SubagentInventory;
use agent_core::subagents::invocation::InvocationSession;
use agent_core::subagents::parser::{
    extract_frontmatter, parse_definition, SubagentFrontmatter, SubagentParserError,
};
use agent_core::subagents::record::{SubagentRecord, SubagentStatus};
use agent_core::subagents::runner::{
    PreparedSubagentInvocation, SubagentInvocationError, SubagentRunner,
};
use agent_core::subagents::service::{build_inventory_for_config, source_tree_from_config};
use agent_core::clock::Timestamp;
use agent_core::protocol::events::Event;

fn make_definition(name: &str, scope: SubagentScope, path: &str) -> SubagentDefinition {
    SubagentDefinition {
        raw_name: name.to_string(),
        name: name.to_string(),
        description: format!("{name} description"),
        tools: vec!["git_diff".into()],
        model: Some("gpt-4.1-mini".into()),
        instructions: format!("Run the {name} playbook."),
        scope,
        source_path: path.to_string(),
        validation_errors: Vec::new(),
    }
}

fn make_project_definition(name: &str, scope: SubagentScope) -> SubagentDefinition {
    make_definition(
        name,
        scope,
        &format!("/home/iatzmon/workspace/codex/.codex/agents/{name}.md"),
    )
}

fn inventory_from_definition(
    config: &SubagentConfig,
    definition: SubagentDefinition,
) -> SubagentInventory {
    SubagentBuilder::new(config.clone())
        .with_definition(definition)
        .build()
}

fn definition(scope: SubagentScope, model: Option<&str>) -> SubagentDefinition {
    SubagentDefinition {
        raw_name: "code-inspector".into(),
        name: "code-inspector".into(),
        description: "Inspects staged diffs".into(),
        tools: vec!["git_diff".into()],
        model: model.map(str::to_string),
        instructions: "Inspect the staged diffs for regressions.".into(),
        scope,
        source_path: "/workspace/.codex/agents/code-inspector.md".to_string(),
        validation_errors: Vec::new(),
    }
}

fn session_for(name: &str, tools: &[&str], confirmed: bool) -> InvocationSession {
    InvocationSession {
        parent_session_id: Some("root".into()),
        subagent_name: name.into(),
        requested_tools: tools.iter().map(|t| t.to_string()).collect(),
        execution_log: Vec::new(),
        summary: None,
        detail_artifacts: Vec::new(),
        confirmed,
        resolved_model: None,
        extra_instructions: None,
    }
}

#[test]
fn normalize_name_collapses_separators() {
    assert_eq!(SubagentDefinition::normalize_name("  Code  Inspector!! "), "code-inspector");
    assert_eq!(SubagentDefinition::normalize_name("___"), "");
    assert_eq!(SubagentDefinition::normalize_name("A_b-C"), "a-b-c");
}

#[test]
fn agents_list_returns_project_override_first() {
    let config = SubagentConfig::enabled(SubagentDiscoveryMode::Auto);
    let user_def = make_definition(
        "code-inspector",
        SubagentScope::User,
        "/home/user/.codex/agents/code-inspector.md",
    );
    let mut project_def = make_definition(
        "code-inspector",
        SubagentScope::Project,
        "/home/iatzmon/workspace/codex/.codex/agents/code-inspector.md",
    );
    project_def.description = "project override description".into();

    let inventory = SubagentBuilder::new(config)
        .with_definitions(vec![user_def.clone(), project_def.clone()])
        .build();

    assert_eq!(
        inventory.subagents.len(),
        1,
        "only one subagent should remain after precedence resolution"
    );
    let record = inventory
        .subagents
        .get("code-inspector")
        .expect("project definition should win precedence");
    assert_eq!(record.definition.scope, SubagentScope::Project);
    assert_eq!(
        record.definition.description,
        "project override description"
    );

    assert_eq!(
        inventory.conflicts.len(),
        1,
        "user definition should be recorded as a conflict"
    );
    let conflict = &inventory.conflicts[0];
    assert_eq!(conflict.name, "code-inspector");
    assert_eq!(conflict.losing_scope, SubagentScope::User);
    assert_eq!(conflict.reason, "project override");
}

#[test]
fn project_override_holds_in_either_order() {
    let config = SubagentConfig::enabled(SubagentDiscoveryMode::Auto);
    let user_def = make_definition("helper", SubagentScope::User, "/home/user/.codex/agents/helper.md");
    let project_def = make_definition("helper", SubagentScope::Project, "/p/.codex/agents/helper.md");
    for definitions in [
        vec![user_def.clone(), project_def.clone()],
        vec![project_def.clone(), user_def.clone()],
    ] {
        let inventory = SubagentInventory::from_definitions(&config, definitions);
        assert_eq!(inventory.subagents.len(), 1);
        assert_eq!(
            inventory.subagents.get("helper").unwrap().definition.scope,
            SubagentScope::Project
        );
        assert_eq!(inventory.conflicts.len(), 1);
        assert_eq!(inventory.conflicts[0].losing_scope, SubagentScope::User);
        assert_eq!(inventory.conflicts[0].reason, "project override");
    }
}

#[test]
fn agents_list_filters_invalid_definitions() {
    let config = SubagentConfig::enabled(SubagentDiscoveryMode::Auto);
    let valid_def = make_definition(
        "code-inspector",
        SubagentScope::Project,
        "/home/iatzmon/workspace/codex/.codex/agents/code-inspector.md",
    );
    let mut invalid_def = make_definition(
        "broken-agent",
        SubagentScope::User,
        "/home/user/.codex/agents/broken-agent.md",
    );
    invalid_def
        .validation_errors
        .push("missing description".into());

    let inventory = SubagentBuilder::new(config)
        .with_definitions(vec![valid_def.clone(), invalid_def.clone()])
        .build();

    assert!(
        inventory.subagents.contains_key("code-inspector"),
        "valid project agent should appear in list",
    );
    assert!(
        !inventory.subagents.contains_key("broken-agent"),
        "invalid agent should not show up by default",
    );

    let invalid: Vec<_> = inventory
        .invalid()
        .iter()
        .map(|record| record.definition.name.as_str())
        .collect();
    assert_eq!(invalid, vec!["broken-agent"]);
}

#[test]
fn project_invalid_falls_back_to_user_definition() {
    let config = SubagentConfig::enabled(SubagentDiscoveryMode::Auto);

    let mut project_def = make_definition(
        "code-inspector",
        SubagentScope::Project,
        "/home/iatzmon/workspace/codex/.codex/agents/code-inspector.md",
    );
    project_def
        .validation_errors
        .push("missing instructions".into());

    let user_def = make_definition(
        "code-inspector",
        SubagentScope::User,
        "/home/user/.codex/agents/code-inspector.md",
    );

    let inventory = SubagentBuilder::new(config)
        .with_definitions(vec![project_def.clone(), user_def.clone()])
        .build();

    let record = inventory
        .subagents
        .get("code-inspector")
        .expect("user definition should be selected when project is invalid");
    assert_eq!(record.definition.scope, SubagentScope::User);

    let invalid: Vec<_> = inventory
        .invalid()
        .iter()
        .map(|record| record.definition.source_path.clone())
        .collect();
    assert_eq!(invalid, vec![project_def.source_path.clone()]);

    let conflict = inventory
        .conflicts
        .iter()
        .find(|conflict| conflict.losing_scope == SubagentScope::Project)
        .expect("invalid project definition should be captured as conflict");
    assert_eq!(conflict.reason, "invalid definition");
}

#[test]
fn invoke_applies_tool_allowlist() {
    let config = SubagentConfig::enabled(SubagentDiscoveryMode::Auto);
    let definition = make_project_definition("code-inspector", SubagentScope::Project);
    let inventory = inventory_from_definition(&config, definition.clone());
    let runner = SubagentRunner::new(&config, &inventory);

    let session = session_for("code-inspector", &["filesystem"], true);

    let result = runner.invoke(session);
    assert!(matches!(
        result,
        Err(SubagentInvocationError::ToolNotAllowed { tool, .. }) if tool == "filesystem"
    ));
}

#[test]
fn invoke_uses_configured_model() {
    let mut config = SubagentConfig::enabled(SubagentDiscoveryMode::Auto);
    config.default_model = Some("gpt-4o-mini".into());
    let definition = SubagentDefinition {
        model: None,
        ..make_project_definition("code-inspector", SubagentScope::Project)
    };
    let inventory = inventory_from_definition(&config, definition.clone());
    let runner = SubagentRunner::new(&config, &inventory);

    let session = session_for("code-inspector", &["git_diff"], true);

    let result = runner
        .invoke(session)
        .expect("invocation should resolve model");
    assert_eq!(
        result.session.resolved_model.as_deref(),
        Some("gpt-4o-mini")
    );
}

#[test]
fn invoke_requires_confirmation_for_auto_suggest() {
    let config = SubagentConfig::enabled(SubagentDiscoveryMode::Auto);
    let definition = make_project_definition("code-inspector", SubagentScope::Project);
    let inventory = inventory_from_definition(&config, definition.clone());
    let runner = SubagentRunner::new(&config, &inventory);

    let session = session_for("code-inspector", &["git_diff"], false);

    let result = runner.invoke(session);
    match result {
        Err(SubagentInvocationError::ConfirmationRequired { subagent, record, session }) => {
            assert_eq!(subagent, "code-inspector");
            assert_eq!(record.definition.name, "code-inspector");
            assert_eq!(session.requested_tools, vec!["git_diff".to_string()]);
            assert!(!session.confirmed);
        }
        other => panic!("unexpected result: {other:?}"),
    }
}

#[test]
fn invoke_preserves_extra_instructions() {
    let config = SubagentConfig::enabled(SubagentDiscoveryMode::Manual);
    let definition = make_project_definition("code-inspector", SubagentScope::Project);
    let inventory = inventory_from_definition(&config, definition.clone());
    let runner = SubagentRunner::new(&config, &inventory);

    let mut session = InvocationSession::new("code-inspector").confirmed();
    session.extra_instructions = Some("Focus on regression tests".into());

    let prepared = runner
        .invoke(session)
        .expect("invocation should carry extra instructions");

    assert_eq!(
        prepared.session.extra_instructions.as_deref(),
        Some("Focus on regression tests")
    );
}

#[test]
fn inventory_respects_disabled_flag() {
    let config = SubagentConfig::disabled();
    let inventory =
        SubagentInventory::from_definitions(&config, vec![definition(SubagentScope::Project, None)]);

    assert!(
        inventory.subagents.is_empty(),
        "disabled config should skip discovery"
    );
    assert!(
        inventory
            .discovery_events
            .iter()
            .any(|event| event.message.contains("disabled")),
        "disabled config should emit a discovery hint"
    );
}

#[test]
fn runner_uses_default_model_when_definition_missing() {
    let config = SubagentConfig::enabled(SubagentDiscoveryMode::Auto)
        .with_default_model(Some("gpt-4.1-mini".into()));
    let inventory = SubagentBuilder::new(config.clone())
        .with_definition(definition(SubagentScope::Project, None))
        .build();

    let session = InvocationSession::new("code-inspector").confirmed();
    let prepared = SubagentRunner::new(&config, &inventory)
        .invoke(session)
        .expect("invocation should succeed when enabled");

    assert_eq!(
        prepared.session.resolved_model.as_deref(),
        Some("gpt-4.1-mini"),
        "runner should fall back to default model"
    );
}

#[test]
fn runner_fails_when_feature_disabled() {
    let config = SubagentConfig::disabled();
    let inventory = SubagentBuilder::new(config.clone())
        .with_definition(definition(SubagentScope::Project, None))
        .build();

    let session = InvocationSession::new("code-inspector").confirmed();
    let err = SubagentRunner::new(&config, &inventory)
        .invoke(session)
        .expect_err("disabled config should reject invocations");

    assert!(matches!(err, SubagentInvocationError::FeatureDisabled));
}

#[test]
fn runner_reports_unknown_invalid_and_disabled_agents() {
    let config = SubagentConfig::enabled(SubagentDiscoveryMode::Manual);
    let mut broken = make_definition("broken", SubagentScope::Project, "/p/broken.md");
    broken.validation_errors.push("missing description".into());
    let inventory = SubagentBuilder::new(config.clone())
        .with_definition(broken)
        .with_definition(definition(SubagentScope::Project, None))
        .build();
    let runner = SubagentRunner::new(&config, &inventory);

    let err = runner.invoke(InvocationSession::new("nobody")).unwrap_err();
    assert!(matches!(err, SubagentInvocationError::UnknownSubagent(name) if name == "nobody"));
    assert_eq!(
        runner.invoke(InvocationSession::new("nobody")).unwrap_err().message(),
        "no subagent named 'nobody'"
    );
    let err = runner.invoke(InvocationSession::new("broken")).unwrap_err();
    assert!(matches!(err, SubagentInvocationError::InvalidSubagent(name) if name == "broken"));
}

#[test]
fn denies_disallowed_tool() {
    let config = SubagentConfig::enabled(SubagentDiscoveryMode::Auto);
    let inventory = SubagentBuilder::new(config.clone())
        .with_definition(definition(SubagentScope::Project, Some("gpt-4.1-mini")))
        .build();

    let mut session = InvocationSession::new("code-inspector").confirmed();
    session.requested_tools = vec!["filesystem".into()];

    let err = SubagentRunner::new(&config, &inventory)
        .invoke(session)
        .expect_err("tool outside allowlist should be rejected");

    assert!(matches!(
        err,
        SubagentInvocationError::ToolNotAllowed { tool, .. } if tool == "filesystem"
    ));
}

#[test]
fn defers_detail_artifact_population_to_executor() {
    let config = SubagentConfig::enabled(SubagentDiscoveryMode::Auto);
    let inventory = SubagentBuilder::new(config.clone())
        .with_definition(definition(SubagentScope::Project, Some("gpt-4.1-mini")))
        .build();

    let session = InvocationSession::new("code-inspector").confirmed();
    let prepared = SubagentRunner::new(&config, &inventory)
        .invoke(session)
        .expect("invocation should succeed with default detail artifact");

    assert!(
        prepared.session.summary.is_none(),
        "runner should defer summary population to the executor"
    );
    assert!(
        prepared.session.detail_artifacts.is_empty(),
        "detail artifacts should be populated after execution"
    );
}

fn project_definition() -> SubagentDefinition {
    SubagentDefinition {
        raw_name: "code-inspector".into(),
        name: "code-inspector".into(),
        description: "Inspects staged diffs for safety regressions".into(),
        tools: vec!["git_diff".into(), "tests".into()],
        model: Some("gpt-4.1-mini".into()),
        instructions: "Inspect staged diffs and execute tests as needed.".into(),
        scope: SubagentScope::Project,
        source_path: "/home/iatzmon/workspace/codex/.codex/agents/code-inspector.md".to_string(),
        validation_errors: Vec::new(),
    }
}

fn user_definition() -> SubagentDefinition {
    SubagentDefinition {
        raw_name: "code-inspector".into(),
        name: "code-inspector".into(),
        description: "User fallback inspector".into(),
        tools: vec!["git_diff".into()],
        model: Some("gpt-4o-mini".into()),
        instructions: "Fallback inspector instructions.".into(),
        scope: SubagentScope::User,
        source_path: "/home/user/.codex/agents/code-inspector.md".to_string(),
        validation_errors: Vec::new(),
    }
}

#[test]
fn subagents_primary_story_project_override_and_summary() {
    let mut config = SubagentConfig::enabled(SubagentDiscoveryMode::Auto);
    config.default_model = Some("gpt-4.1-mini".into());

    let inventory = SubagentBuilder::new(config.clone())
        .with_definition(user_definition())
        .with_definition(project_definition())
        .build();

    assert_eq!(
        inventory.subagents.len(),
        1,
        "project should override user definition"
    );

    let session = session_for("code-inspector", &["git_diff", "tests"], true);

    let prepared = SubagentRunner::new(&config, &inventory)
        .invoke(session)
        .expect("invocation should succeed when confirmed");

    assert_eq!(prepared.session.subagent_name, "code-inspector");
    assert_eq!(
        prepared.session.resolved_model.as_deref(),
        Some("gpt-4.1-mini")
    );
    assert!(
        prepared.session.summary.is_none(),
        "summary should be captured during execution"
    );
    assert!(
        prepared.session.detail_artifacts.is_empty(),
        "detail artifacts are assigned after execution"
    );
}

fn restricted_definition() -> SubagentDefinition {
    SubagentDefinition {
        raw_name: "shell-guard".into(),
        name: "shell-guard".into(),
        description: "Runs shell commands with a limited allowlist".into(),
        tools: vec!["git_diff".into()],
        model: None,
        instructions: "Inspect staged diffs without running arbitrary shell commands.".into(),
        scope: SubagentScope::Project,
        source_path: "/home/iatzmon/workspace/codex/.codex/agents/shell-guard.md".to_string(),
        validation_errors: Vec::new(),
    }
}

#[test]
fn subagents_denies_restricted_tool_usage() {
    let config = SubagentConfig::enabled(SubagentDiscoveryMode::Auto);
    let inventory = SubagentBuilder::new(config.clone())
        .with_definition(restricted_definition())
        .build();
    let runner = SubagentRunner::new(&config, &inventory);

    let session = session_for("shell-guard", &["filesystem"], true);

    let result = runner.invoke(session);
    assert!(matches!(
        result,
        Err(SubagentInvocationError::ToolNotAllowed { tool, .. }) if tool == "filesystem"
    ));
}

#[test]
fn format_instruction_block_adds_extra_request() {
    let mut definition = SubagentDefinition::new(
        "code-inspector",
        "Inspects staged diffs",
        SubagentScope::Project,
        "/tmp/code-inspector.md",
    );
    definition.instructions = "Inspect the staged diffs.".into();
    definition.tools = vec!["git_diff".into()];

    let config = SubagentConfig::enabled(SubagentDiscoveryMode::Auto);
    let record = SubagentRecord::from_definition(definition.clone(), &config);

    let mut session = InvocationSession::new(&definition.name).confirmed();
    session.extra_instructions = Some("  Focus on the docs folder  ".into());

    let prepared = PreparedSubagentInvocation {
        session: session.clone(),
        record,
    };

    let block = format_instruction_block(
        &definition.instructions,
        session.extra_instructions.as_deref(),
        &prepared,
    );

    assert!(
        block.contains("Additional request:\nFocus on the docs folder"),
        "{block}"
    );
    assert!(block.contains("Allowed tools: git_diff"), "{block}");
    assert_eq!(
        block,
        "Inspect the staged diffs.\n\nAdditional request:\nFocus on the docs folder\n\nAllowed tools: git_diff"
    );
}

#[test]
fn capture_agent_output_accumulates_deltas() {
    let mut buffer = None;
    let mut last = None;

    let should_break = capture_agent_output(
        &EventMsg::AgentMessageDelta {
            delta: "Part 1 ".into(),
        },
        &mut buffer,
        &mut last,
    );
    assert!(!should_break);
    assert_eq!(last.as_deref(), Some("Part 1 "));

    let should_break = capture_agent_output(
        &EventMsg::AgentMessageDelta {
            delta: "and 2".into(),
        },
        &mut buffer,
        &mut last,
    );
    assert!(!should_break);
    assert_eq!(last.as_deref(), Some("Part 1 and 2"));

    let should_break = capture_agent_output(
        &EventMsg::TaskComplete {
            last_agent_message: None,
        },
        &mut buffer,
        &mut last,
    );
    assert!(should_break);
    assert_eq!(last.as_deref(), Some("Part 1 and 2"));
}

#[test]
fn capture_agent_output_prefers_task_complete_message() {
    let mut buffer = Some("stale".into());
    let mut last = buffer.clone();

    let should_break = capture_agent_output(
        &EventMsg::TaskComplete {
            last_agent_message: Some("final".into()),
        },
        &mut buffer,
        &mut last,
    );
    assert!(should_break);
    assert_eq!(buffer.as_deref(), Some("stale"));
    assert_eq!(last.as_deref(), Some("final"));

    let mut buffer = None;
    let mut last = None;
    let should_break = capture_agent_output(
        &EventMsg::AgentMessage {
            message: "complete message".into(),
        },
        &mut buffer,
        &mut last,
    );
    assert!(!should_break);
    assert_eq!(last.as_deref(), Some("complete message"));
}

fn prepared_run() -> PreparedSubagentInvocation {
    let config = SubagentConfig::enabled(SubagentDiscoveryMode::Manual);
    let inventory = SubagentBuilder::new(config.clone())
        .with_definition(definition(SubagentScope::Project, None))
        .build();
    let mut session = InvocationSession::new("code-inspector").confirmed();
    session.execution_log.push("requested".to_string());
    SubagentRunner::new(&config, &inventory).invoke(session).expect("prepared")
}

#[test]
fn silent_agent_gets_a_synthesized_summary() {
    let prepared = prepared_run();
    let mut run = begin_subagent_run(&prepared, "base-model").expect("run");
    assert_eq!(run.resolved_model.as_deref(), Some("base-model"));
    assert_eq!(
        run.instructions,
        "Inspect the staged diffs for regressions.\n\nAllowed tools: git_diff"
    );
    let other = Event { id: "other".into(), msg: EventMsg::AgentMessage { message: "x".into() } };
    assert!(matches!(observe_event(&mut run, other, "sub-1"), Observation::Continue));
    assert!(run.transcript.is_empty());
    let done =
        Event { id: "sub-1".into(), msg: EventMsg::TaskComplete { last_agent_message: None } };
    assert!(matches!(observe_event(&mut run, done, "sub-1"), Observation::Done));
    assert_eq!(run.transcript.len(), 1);

    let session = finish_subagent_run(prepared, run, "/workspace/.codex/agents/sessions/t.json");
    assert_eq!(
        session.summary.as_deref(),
        Some("Subagent 'code-inspector' completed without returning a final message.")
    );
    assert_eq!(
        session.detail_artifacts,
        vec!["agents://code-inspector/sessions/latest".to_string()]
    );
    assert_eq!(session.resolved_model.as_deref(), Some("base-model"));
    assert_eq!(
        session.execution_log,
        vec![
            "requested".to_string(),
            "instructions: Inspect the staged diffs for regressions.\n\nAllowed tools: git_diff"
                .to_string(),
            "transcript saved to /workspace/.codex/agents/sessions/t.json".to_string(),
        ]
    );
}

#[test]
fn agent_message_becomes_the_summary_and_errors_end_the_run() {
    let prepared = prepared_run();
    let mut run = begin_subagent_run(&prepared, "base-model").expect("run");
    let delta =
        Event { id: "s".into(), msg: EventMsg::AgentMessageDelta { delta: "All ".into() } };
    assert!(matches!(observe_event(&mut run, delta, "s"), Observation::Continue));
    let delta =
        Event { id: "s".into(), msg: EventMsg::AgentMessageDelta { delta: "good".into() } };
    assert!(matches!(observe_event(&mut run, delta, "s"), Observation::Continue));
    assert_eq!(run.last_message.as_deref(), Some("All good"));
    let failure = Event { id: "s".into(), msg: EventMsg::Error { message: "boom".into() } };
    match observe_event(&mut run, failure, "s") {
        Observation::Failed(SubagentInvocationError::ExecutionFailed(m)) => assert_eq!(m, "boom"),
        other => panic!("unexpected: {other:?}"),
    }
    let session = finish_subagent_run(prepared, run, "p");
    assert_eq!(session.summary.as_deref(), Some("All good"));
}

#[test]
fn agent_without_instructions_does_not_run() {
    let mut prepared = prepared_run();
    prepared.record.definition.instructions = "   \n".to_string();
    match begin_subagent_run(&prepared, "m") {
        Err(SubagentInvocationError::InvalidSubagent(name)) => assert_eq!(name, "code-inspector"),
        other => panic!("unexpected: {other:?}"),
    }
}

#[test]
fn instruction_preview_keeps_four_lines() {
    let mut prepared = prepared_run();
    prepared.record.definition.instructions = "l1\nl2\nl3\nl4\nl5\nl6".to_string();
    prepared.record.effective_tools = Vec::new();
    let run = begin_subagent_run(&prepared, "m").expect("run");
    let session = finish_subagent_run(prepared, run, "p");
    assert_eq!(session.execution_log[1], "instructions: l1\nl2\nl3\nl4");
}

#[test]
fn artifact_uri_and_transcript_name() {
    assert_eq!(artifact_uri("helper"), "agents://helper/sessions/latest");
    assert_eq!(
        transcript_file_name(Timestamp { millis: 1_700_000_000_123 }).as_deref(),
        Some("20231114T221320Z.json")
    );
    assert_eq!(transcript_file_name(Timestamp { millis: 0 }).as_deref(), Some("19700101T000000Z.json"));
}

fn front(name: Option<&str>, description: Option<&str>, tools: Option<Vec<&str>>) -> SubagentFrontmatter {
    SubagentFrontmatter {
        name: name.map(str::to_string),
        description: description.map(str::to_string),
        tools: tools.map(|t| t.into_iter().map(str::to_string).collect()),
        model: None,
    }
}

#[test]
fn parse_definition_reads_front_matter_and_body() {
    let contents = "---\nname: Code Inspector\ndescription: Looks at diffs\n---\r\n\nDo the work.\n";
    let (front_text, body) = extract_frontmatter(contents).expect("split");
    assert_eq!(front_text, "name: Code Inspector\ndescription: Looks at diffs");
    assert_eq!(body, "\nDo the work.\n");
    let parsed = parse_definition(
        "/p/.codex/agents/inspect.md",
        contents,
        SubagentScope::Project,
        Ok(front(Some("Code Inspector"), Some(" Looks at diffs "), Some(vec![" git_diff ", ""]))),
    )
    .expect("definition");
    assert_eq!(parsed.raw_name, "Code Inspector");
    assert_eq!(parsed.name, "code-inspector");
    assert_eq!(parsed.description, "Looks at diffs");
    assert_eq!(parsed.tools, vec!["git_diff".to_string()]);
    assert_eq!(parsed.instructions, "Do the work.");
    assert_eq!(parsed.source_path, "/p/.codex/agents/inspect.md");
    assert_eq!(parsed.validation_errors, vec!["`tools` entries must be non-empty strings".to_string()]);
    assert!(!parsed.is_valid());
}

#[test]
fn parse_definition_falls_back_to_the_file_name() {
    let contents = "---\ndescription: d\n---\nbody";
    let parsed = parse_definition(
        "/p/.codex/agents/My Helper.md",
        contents,
        SubagentScope::User,
        Ok(front(None, Some("d"), None)),
    )
    .expect("definition");
    assert_eq!(parsed.raw_name, "My Helper");
    assert_eq!(parsed.name, "my-helper");
    assert_eq!(
        parsed.validation_errors,
        vec!["frontmatter is missing a non-empty `name` field".to_string()]
    );
}

#[test]
fn parse_definition_refuses_files_without_front_matter() {
    let err = parse_definition("/p/a.md", "no front matter", SubagentScope::Project, Ok(front(None, None, None)))
        .expect_err("refused");
    assert_eq!(err, SubagentParserError::ParseError(
        "subagent definitions must start with `---` frontmatter".to_string()
    ));
    assert_eq!(
        err.message(),
        "failed to parse subagent file: subagent definitions must start with `---` frontmatter"
    );
    let err = parse_definition("/p/a.md", "---\nname: x\n", SubagentScope::Project, Ok(front(None, None, None)))
        .expect_err("refused");
    assert_eq!(err, SubagentParserError::ParseError("unterminated YAML frontmatter".to_string()));
    let err = parse_definition("/p/a.md", "---\nname: [\n---\nbody", SubagentScope::Project, Err("bad yaml".to_string()))
        .expect_err("refused");
    assert_eq!(err, SubagentParserError::ParseError("bad yaml".to_string()));
}

fn source_file(path: &str, ext: Option<&str>, stem: &str, contents: &str, name: &str) -> SourceFile {
    SourceFile {
        path: path.to_string(),
        extension: ext.map(str::to_string),
        stem: Some(stem.to_string()),
        contents: Ok(contents.to_string()),
        frontmatter: Ok(front(Some(name), Some("does things"), None)),
    }
}

#[test]
fn discovery_reads_markdown_files_only() {
    let files = vec![
        source_file("/p/a.MD", Some("MD"), "a", "---\nname: a\n---\nbody a", "a"),
        source_file("/p/notes.txt", Some("txt"), "notes", "---\nname: n\n---\nbody", "n"),
        SourceFile {
            path: "/p/b.md".to_string(),
            extension: Some("md".to_string()),
            stem: Some("b".to_string()),
            contents: Err("permission denied".to_string()),
            frontmatter: Err(String::new()),
        },
        source_file("/p/c.markdown", Some("markdown"), "c", "no front matter", "c"),
    ];
    let outcome = discover_from_source(&DiscoverySource::Project("/p".to_string()), &files);
    assert_eq!(outcome.definitions.len(), 1);
    assert_eq!(outcome.definitions[0].name, "a");
    assert_eq!(outcome.definitions[0].scope, SubagentScope::Project);
    assert_eq!(outcome.events.len(), 2);
    assert!(outcome.events[0].message.contains("/p/b.md"));
    assert!(outcome.events[0].message.contains("permission denied"));
    assert!(outcome.events[1].message.contains("/p/c.markdown"));
}

#[test]
fn inventory_is_built_from_the_listings_of_a_tree() {
    let tree = source_tree_from_config("/work", "/home/u/.codex");
    assert_eq!(tree.project, vec!["/work/.codex/agents".to_string()]);
    assert_eq!(tree.user, vec!["/home/u/.codex/agents".to_string()]);
    let listings = vec![
        vec![source_file("/work/.codex/agents/a.md", Some("md"), "a", "---\nname: a\n---\nproject", "a")],
        vec![
            source_file("/home/u/.codex/agents/a.md", Some("md"), "a", "---\nname: a\n---\nuser", "a"),
            source_file("/home/u/.codex/agents/b.md", Some("md"), "b", "---\nname: b\n---\nuser b", "b"),
        ],
    ];
    let config = SubagentConfig::enabled(SubagentDiscoveryMode::Auto);
    let inventory = build_inventory_for_config(&config, &tree, &listings);
    assert_eq!(inventory.subagents.len(), 2);
    assert_eq!(inventory.subagents.get("a").unwrap().definition.instructions, "project");
    assert_eq!(inventory.subagents.get("b").unwrap().status, SubagentStatus::Active);
    assert_eq!(inventory.conflicts.len(), 1);
    let mut both = SubagentSourceTree::default();
    assert!(both.is_empty());
    both.add_user("/u");
    assert!(!both.is_empty());
}

#[test]
fn scope_is_detected_from_the_home_directory() {
    assert_eq!(detect_scope("/home/u/.codex/agents/a.md", Some("/home/u")), SubagentScope::User);
    assert_eq!(detect_scope("/work/.codex/agents/a.md", Some("/home/u")), SubagentScope::Project);
    assert_eq!(detect_scope("/home/u/.codex/agents/a.md", None), SubagentScope::Project);
}
