use agent_core::clock::Timestamp;
use agent_core::digest::checksum;
use agent_core::plan_mode::allow_list::PlanModeAllowList;
use agent_core::plan_mode::entry::{PlanEntry, PlanEntryType};
use agent_core::plan_mode::payload::PlanEntryPayload;
use agent_core::hooks::config_loader::{
    HookConfigError, HookConfigLoader, HookEntry, HookFile, LayerSource,
};
use agent_core::hooks::decision::{HookDecision, HookOutcome};
use agent_core::hooks::definition::HookDefinition;
use agent_core::hooks::events::{event_order, format_event, parse_hook_event, HookEvent};
use agent_core::hooks::execution_record::HookExecutionRecord;
use agent_core::hooks::executor::{HookExecutor, PreToolUsePayload};
use agent_core::hooks::inspect::{
    ellipsize, filter_exec_log, status_label, summarize_command, validation_exit_code,
    validation_summary, HookExecLogRequest, HookValidationStatus, ScopeFilterOption,
};
use agent_core::hooks::layer_summary::HookLayerSummary;
use agent_core::hooks::log_writer::HookLogWriter;
use agent_core::hooks::matchers::{HookMatcher, HookMatchers};
use agent_core::hooks::registry::HookRegistry;
use agent_core::hooks::schema_registry::{
    HookPayloadValidationError, HookSchemaRegistry, PayloadShape,
};
use agent_core::hooks::scope::{precedence_rank, HookScope, HookScopeFilter};
use agent_core::hooks::skipped::HookSkipReason;
use agent_core::hooks::snapshot::{build_hook_registry_snapshot, HookListRequest};

fn layer(scope: HookScope) -> HookLayerSummary {
    HookLayerSummary::new(scope, "/tmp/mock.toml")
}

fn managed() -> HookScope {
    HookScope::ManagedPolicy { name: "policy".into() }
}

fn project() -> HookScope {
    HookScope::Project { project_root: "/workspace".into() }
}

fn local() -> HookScope {
    HookScope::LocalUser { codex_home: "/home/user/.codex".into() }
}

fn definition_with_scope(id: &str, scope: HookScope) -> HookDefinition {
    let mut definition = HookDefinition::new(id, HookEvent::PreToolUse, scope);
    definition.command = vec!["/bin/true".into()];
    definition
}

#[test]
fn registry_orders_hooks_by_scope_precedence() {
    let mut managed_hook = HookDefinition::new("managed.guard", HookEvent::PreToolUse, managed());
    managed_hook.schema_versions = vec!["1.0".into()];

    let mut project_hook = HookDefinition::new("project.guard", HookEvent::PreToolUse, project());
    project_hook.schema_versions = vec!["1.0".into()];

    let mut local_hook = HookDefinition::new("local.guard", HookEvent::PreToolUse, local());
    local_hook.schema_versions = vec!["1.0".into()];

    let registry = HookRegistry::with_layers(
        vec![local_hook, project_hook, managed_hook],
        vec![layer(managed())],
        Timestamp { millis: 1_758_369_600_000 },
    );

    let hooks = registry.hooks_for_event(HookEvent::PreToolUse);
    let ids: Vec<_> = hooks.iter().map(|hook| hook.id.as_str()).collect();
    assert_eq!(ids, vec!["managed.guard", "project.guard", "local.guard"]);
    assert_eq!(registry.len(), 3);
    assert!(!registry.is_empty());
    assert!(registry.hooks_for_event(HookEvent::Stop).is_empty());
    assert_eq!(registry.source_layers().len(), 1);
}

#[test]
fn registry_orders_hooks_by_scope_then_id() {
    let mut registry = HookRegistry::new();

    let managed_hook = definition_with_scope(
        "managed.alpha",
        HookScope::ManagedPolicy { name: "org-policy".into() },
    );
    let mut project_hook = definition_with_scope(
        "project.alpha",
        HookScope::Project { project_root: "/workspace/project".into() },
    );
    project_hook.id = "project.beta".into();
    let local_hook = definition_with_scope("local.alpha", local());

    registry.insert(vec![local_hook.clone(), project_hook.clone(), managed_hook.clone()]);

    let hooks = registry.hooks_for_event(HookEvent::PreToolUse);
    let ordered_ids: Vec<&str> = hooks.iter().map(|hook| hook.id.as_str()).collect();
    assert_eq!(
        ordered_ids,
        vec!["managed.alpha", "project.beta", "local.alpha"]
    );

    let mut another_managed = managed_hook.clone();
    another_managed.id = "managed.beta".into();
    registry.insert(vec![another_managed]);
    let hooks = registry.hooks_for_event(HookEvent::PreToolUse);
    let ordered_ids: Vec<&str> = hooks.iter().map(|hook| hook.id.as_str()).collect();
    assert_eq!(
        ordered_ids,
        vec![
            "managed.alpha",
            "managed.beta",
            "project.beta",
            "local.alpha"
        ]
    );
}

#[test]
fn registry_keeps_insertion_order_among_equals() {
    let mut registry = HookRegistry::new();
    let mut first = definition_with_scope("same", project());
    first.notes = Some("first".into());
    let mut second = definition_with_scope("same", project());
    second.notes = Some("second".into());
    registry.insert(vec![first]);
    registry.insert(vec![second, definition_with_scope("a", project())]);
    let notes: Vec<(String, Option<String>)> = registry
        .hooks_for_event(HookEvent::PreToolUse)
        .iter()
        .map(|h| (h.id.clone(), h.notes.clone()))
        .collect();
    assert_eq!(
        notes,
        vec![
            ("a".to_string(), None),
            ("same".to_string(), Some("first".to_string())),
            ("same".to_string(), Some("second".to_string())),
        ]
    );
}

fn tagged(matcher: &HookMatcher) -> serde_json::Value {
    let mut map = serde_json::Map::new();
    map.insert("type".to_string(), serde_json::Value::String(matcher.type_tag()));
    map.insert("value".to_string(), serde_json::Value::String(matcher.value().clone()));
    serde_json::Value::Object(map)
}

#[test]
fn matcher_serializes_with_type_tag() {
    let matcher = HookMatcher::Glob { value: "shell*".to_string() };
    let serialized = tagged(&matcher);
    let expected: serde_json::Value =
        serde_json::from_str("{\"type\": \"glob\", \"value\": \"shell*\"}").unwrap();
    assert_eq!(serialized, expected);

    let matchers = HookMatchers {
        tool_names: vec![matcher],
        sources: Vec::new(),
        paths: Vec::new(),
        tags: Vec::new(),
    };
    let mut group = serde_json::Map::new();
    if !matchers.tool_names.is_empty() {
        group.insert(
            "toolNames".to_string(),
            serde_json::Value::Array(matchers.tool_names.iter().map(tagged).collect()),
        );
    }
    let expected_group: serde_json::Value =
        serde_json::from_str("{\"toolNames\": [{\"type\": \"glob\", \"value\": \"shell*\"}]}")
            .unwrap();
    assert_eq!(serde_json::Value::Object(group), expected_group);
}

#[test]
fn matcher_tag_and_value_round_trip() {
    for matcher in [
        HookMatcher::Exact { value: "shell".to_string() },
        HookMatcher::Glob { value: "sh*".to_string() },
        HookMatcher::Regex { value: "^sh".to_string() },
    ] {
        let back = HookMatcher::from_tagged(&matcher.type_tag(), matcher.value());
        assert_eq!(back, Some(matcher));
    }
    assert_eq!(HookMatcher::Exact { value: String::new() }.type_tag(), "exact");
    assert_eq!(HookMatcher::Regex { value: String::new() }.type_tag(), "regex");
    assert_eq!(HookMatcher::from_tagged("prefix", "x"), None);
}

fn strings(value: &toml::Value, key: &str) -> Result<Vec<String>, String> {
    match value.get(key) {
        None => Err(format!("missing field `{key}`")),
        Some(toml::Value::Array(items)) => items
            .iter()
            .map(|i| i.as_str().map(str::to_string).ok_or_else(|| format!("invalid `{key}`")))
            .collect(),
        Some(_) => Err(format!("invalid type for `{key}`")),
    }
}

fn decode_entry(value: &toml::Value) -> Result<HookEntry, String> {
    let id = value
        .get("id")
        .and_then(|v| v.as_str())
        .ok_or_else(|| "missing field `id`".to_string())?;
    let event = value
        .get("event")
        .and_then(|v| v.as_str())
        .ok_or_else(|| "missing field `event`".to_string())?;
    let event = parse_hook_event(event).ok_or_else(|| format!("unknown variant `{event}`"))?;
    Ok(HookEntry {
        id: id.to_string(),
        event,
        notes: value.get("notes").and_then(|v| v.as_str()).map(str::to_string),
        command: strings(value, "command")?,
        working_dir: value.get("workingDir").and_then(|v| v.as_str()).map(str::to_string),
        timeout_ms: value.get("timeoutMs").and_then(|v| v.as_integer()).map(|n| n as u64),
        allow_parallel: value.get("allowParallel").and_then(|v| v.as_bool()).unwrap_or(false),
        schema_versions: strings(value, "schemaVersions")?,
        matchers: HookMatchers::default(),
        env: Vec::new(),
    })
}

fn decode_hook_file(text: &str) -> Result<HookFile, String> {
    let value: toml::Value = toml::from_str(text).map_err(|e| e.to_string())?;
    let schema_version = value
        .get("schemaVersion")
        .and_then(|v| v.as_str())
        .ok_or_else(|| "missing field `schemaVersion`".to_string())?;
    let mut hooks = Vec::new();
    if let Some(toml::Value::Array(entries)) = value.get("hooks") {
        for entry in entries {
            hooks.push(decode_entry(entry)?);
        }
    }
    Ok(HookFile {
        schema_version: schema_version.to_string(),
        default_timeout_ms: value
            .get("defaultTimeoutMs")
            .and_then(|v| v.as_integer())
            .map(|n| n as u64),
        env: Vec::new(),
        hooks,
    })
}

fn valid_config() -> &'static str {
    r#"
        schemaVersion = "1.0"

        [[hooks]]
        id = "project.shell.guard"
        event = "PreToolUse"
        command = ["./scripts/guard.sh"]
        schemaVersions = ["1.0"]
    "#
}

fn invalid_config_missing_id() -> &'static str {
    r#"
        schemaVersion = "1.0"

        [[hooks]]
        event = "PreToolUse"
        command = ["./scripts/guard.sh"]
        schemaVersions = ["1.0"]
    "#
}

#[test]
fn hook_config_allows_valid_minimal_document() {
    let result = HookConfigLoader::validate_document(&decode_hook_file(valid_config()));
    assert_eq!(result, Ok(()));
}

#[test]
fn hook_config_rejects_missing_id() {
    let result =
        HookConfigLoader::validate_document(&decode_hook_file(invalid_config_missing_id()));
    assert!(matches!(
        result,
        Err(HookConfigError::InvalidConfiguration(message)) if message.contains("id")
    ));
}

#[test]
fn hook_config_reports_each_problem() {
    let check = |text: &str| HookConfigLoader::validate_document(&decode_hook_file(text));
    assert_eq!(
        check("schemaVersion = \"2.0\""),
        Err(HookConfigError::InvalidConfiguration("unsupported schemaVersion".to_string()))
    );
    assert_eq!(
        check("schemaVersion = \"1.0\"\n[[hooks]]\nid = \"  \"\nevent = \"Stop\"\ncommand = [\"x\"]\nschemaVersions = [\"1.0\"]"),
        Err(HookConfigError::InvalidConfiguration("hook id must not be empty".to_string()))
    );
    assert_eq!(
        check("schemaVersion = \"1.0\"\n[[hooks]]\nid = \"a\"\nevent = \"Stop\"\ncommand = []\nschemaVersions = [\"1.0\"]"),
        Err(HookConfigError::InvalidConfiguration("hook `a` missing command".to_string()))
    );
    assert_eq!(
        check("schemaVersion = \"1.0\"\n[[hooks]]\nid = \"a\"\nevent = \"Stop\"\ncommand = [\"x\"]\nschemaVersions = []"),
        Err(HookConfigError::InvalidConfiguration("hook `a` missing schemaVersions".to_string()))
    );
    assert_eq!(
        HookConfigLoader::validate_file(&Err("no such file".to_string()), &Err(String::new())),
        Err(HookConfigError::Io("no such file".to_string()))
    );
    assert_eq!(
        HookConfigError::Io("no such file".to_string()).message(),
        "failed to read configuration: no such file"
    );
    assert_eq!(
        HookConfigError::InvalidConfiguration("x".to_string()).message(),
        "invalid hook configuration: x"
    );
    assert_eq!(
        HookConfigError::NotImplemented.message(),
        "hook configuration validation not implemented"
    );
}

fn legacy_notify(text: &str) -> Option<Vec<String>> {
    let value: toml::Value = toml::from_str(text).ok()?;
    let notify = value.get("notifications")?.get("notify")?.as_array()?;
    Some(notify.iter().filter_map(|v| v.as_str().map(str::to_string)).collect())
}

#[test]
fn legacy_notify_configuration_synthesizes_notification_hook() {
    let legacy_config = r#"
        [notifications]
        notify = ["notify-send", "Codex"]
    "#;

    let hook = HookConfigLoader::synthesize_legacy_notify(
        &legacy_notify(legacy_config),
        "/home/user/.codex",
    )
    .expect("legacy notify synthesis should produce Notification hook");
    assert_eq!(hook.id, "legacy.notify");
    assert_eq!(hook.event, HookEvent::Notification);
    assert_eq!(hook.command, vec!["notify-send".to_string(), "Codex".to_string()]);
    assert_eq!(hook.scope, local());

    assert_eq!(
        HookConfigLoader::synthesize_legacy_notify(&None, "/home/user/.codex"),
        Err(HookConfigError::InvalidConfiguration(
            "legacy notify configuration not found".to_string()
        ))
    );
    assert!(HookConfigLoader::synthesize_legacy_notify(&Some(Vec::new()), "/h").is_err());
}

fn source(scope: HookScope, path: &str, text: &str) -> LayerSource {
    LayerSource {
        scope,
        path: path.to_string(),
        contents: Ok(text.to_string()),
        parsed: decode_hook_file(text),
    }
}

#[test]
fn layers_load_in_order_and_skip_bad_entries() {
    let text = r#"
schemaVersion = "1.0"

[[hooks]]
id = "guard"
event = "PreToolUse"
command = ["./guard.sh"]
schemaVersions = ["1.0"]

[[hooks]]
id = "guard"
event = "PostToolUse"
command = ["./again.sh"]
schemaVersions = ["1.0"]

[[hooks]]
id = "empty"
event = "Stop"
command = []
schemaVersions = ["1.0"]

[[hooks]]
id = "unversioned"
event = "Stop"
command = ["x"]
schemaVersions = []
"#;
    let sources = vec![source(project(), "/workspace/.codex/hooks.toml", text)];
    let (definitions, layers) = HookConfigLoader::load_layers(&sources).expect("layers load");
    assert_eq!(definitions.len(), 1);
    assert_eq!(definitions[0].id, "guard");
    assert_eq!(definitions[0].scope, project());
    assert_eq!(definitions[0].source_path.as_deref(), Some("/workspace/.codex/hooks.toml"));
    assert_eq!(layers.len(), 1);
    assert_eq!(layers[0].loaded_hooks, 1);
    assert_eq!(layers[0].checksum, checksum(text));
    let reasons: Vec<(Option<&str>, HookSkipReason)> = layers[0]
        .skipped_hooks
        .iter()
        .map(|s| (s.hook_id.as_deref(), s.reason))
        .collect();
    assert_eq!(
        reasons,
        vec![
            (Some("guard"), HookSkipReason::DuplicateId),
            (Some("empty"), HookSkipReason::InvalidSchema),
            (Some("unversioned"), HookSkipReason::InvalidSchema),
        ]
    );

    let registry = HookRegistry::with_layers(definitions, layers, Timestamp { millis: 7 });
    let (status, shown) = validation_summary(&registry, None);
    assert_eq!(status, HookValidationStatus::Error);
    assert_eq!(shown.len(), 1);
    let (status, shown) = validation_summary(&registry, Some(ScopeFilterOption::Managed));
    assert_eq!(status, HookValidationStatus::Okay);
    assert!(shown.is_empty());
}

#[test]
fn a_layer_that_cannot_be_read_ends_the_loading() {
    let bad = LayerSource {
        scope: managed(),
        path: "/etc/codex/hooks.toml".to_string(),
        contents: Err("permission denied".to_string()),
        parsed: Err(String::new()),
    };
    let err = HookConfigLoader::load_layers(&vec![source(project(), "/p", valid_config()), bad])
        .expect_err("error");
    assert!(matches!(err, HookConfigError::Io(_)));
    let wrong = source(project(), "/p", "schemaVersion = \"3\"");
    assert!(matches!(
        HookConfigLoader::load_layers(&vec![wrong]),
        Err(HookConfigError::InvalidConfiguration(_))
    ));
}

fn payload_shape(text: &str) -> Result<PayloadShape, String> {
    let value: serde_json::Value = serde_json::from_str(text).map_err(|e| e.to_string())?;
    Ok(PayloadShape {
        is_object: value.is_object(),
        schema_version: value.get("schemaVersion").and_then(|v| v.as_str()).map(str::to_string),
        event: value.get("event").and_then(|v| v.as_str()).map(str::to_string),
        decodes: Ok(()),
    })
}

fn valid_payload() -> &'static str {
    r#"
    {
        "schemaVersion": "1.0",
        "event": "PreToolUse",
        "sessionId": "00000000-0000-0000-0000-000000000000",
        "timestamp": "2025-09-20T20:15:00Z",
        "workspaceRoot": "/workspace/project",
        "cwd": "/workspace/project",
        "eventContext": {
            "toolName": "shell",
            "arguments": {}
        }
    }
    "#
}

fn invalid_payload_missing_event() -> &'static str {
    r#"
    {
        "schemaVersion": "1.0",
        "sessionId": "00000000-0000-0000-0000-000000000000",
        "timestamp": "2025-09-20T20:15:00Z",
        "workspaceRoot": "/workspace/project",
        "cwd": "/workspace/project",
        "eventContext": {
            "toolName": "shell",
            "arguments": {}
        }
    }
    "#
}

#[test]
fn hook_payload_allows_valid_document() {
    let result = HookSchemaRegistry::validate_payload(&payload_shape(valid_payload()));
    assert_eq!(result, Ok(()));
}

#[test]
fn hook_payload_rejects_missing_event() {
    let result =
        HookSchemaRegistry::validate_payload(&payload_shape(invalid_payload_missing_event()));
    assert!(matches!(
        result,
        Err(HookPayloadValidationError::Invalid(message)) if message.contains("event")
    ));
}

#[test]
fn hook_payload_reports_each_problem() {
    let check = |text: &str| HookSchemaRegistry::validate_payload(&payload_shape(text));
    assert_eq!(
        check("[1]"),
        Err(HookPayloadValidationError::Invalid("payload must be an object".to_string()))
    );
    assert_eq!(
        check("{\"schemaVersion\": \"0.9\", \"event\": \"Stop\"}"),
        Err(HookPayloadValidationError::Invalid("unsupported schemaVersion".to_string()))
    );
    assert_eq!(
        check("{\"schemaVersion\": \"1.0\"}"),
        Err(HookPayloadValidationError::Invalid("event must be provided".to_string()))
    );
    assert!(check("{").is_err());
    assert_eq!(
        HookSchemaRegistry::supported_decisions(),
        vec![
            HookOutcome::Allow,
            HookOutcome::Ask,
            HookOutcome::Deny,
            HookOutcome::Block,
            HookOutcome::Continue
        ]
    );
}

#[test]
fn pretool_guard_blocks_dangerous_shell_command() {
    let executor = HookExecutor::default();
    let payload = PreToolUsePayload {
        tool_name: "shell".to_string(),
        command: "rm -rf /var/www".to_string(),
    };

    let decision = executor
        .evaluate_pre_tool_use(&payload)
        .expect("pre-tool guard should produce a decision");

    assert_eq!(decision.decision, HookOutcome::Deny);
    assert_eq!(decision.exit_code, 2);
    assert!(decision.is_blocking());
}

#[test]
fn logs_pretool_decision_to_jsonl() {
    let executor = HookExecutor::with_runtime(
        HookRegistry::new(),
        HookLogWriter::new("/tmp/logs/hooks.jsonl"),
        HookScope::LocalUser { codex_home: String::new() },
    );

    let payload = PreToolUsePayload {
        tool_name: "shell".to_string(),
        command: "echo hi".to_string(),
    };

    let decision = executor
        .evaluate_pre_tool_use(&payload)
        .expect("pre-tool hook should evaluate");
    let record: HookExecutionRecord =
        executor.pre_tool_record(&payload, &decision).expect("a record to write");
    assert_eq!(record.event, HookEvent::PreToolUse);
    assert_eq!(record.decision.exit_code, 0);
    assert_eq!(record.trigger_id, payload.command);
    assert_eq!(record.payload_hash, checksum("echo hi"));
    assert_eq!(record.precedence_rank, 0);

    let writer = executor.log_writer.as_ref().unwrap();
    assert_eq!(writer.path(), "/tmp/logs/hooks.jsonl");
    assert_eq!(writer.directory_to_create().as_deref(), Some("/tmp/logs"));
    assert_eq!(writer.line_for("{\"a\":1}"), "{\"a\":1}\n");
    assert!(HookExecutor::default().pre_tool_record(&payload, &decision).is_none());
}

#[test]
fn pretool_guard_allows_safe_command() {
    let executor = HookExecutor::default();
    let payload = PreToolUsePayload {
        tool_name: "shell".to_string(),
        command: "echo hello".to_string(),
    };

    let decision = executor
        .evaluate_pre_tool_use(&payload)
        .expect("pre-tool guard should produce a decision");

    assert_eq!(decision.decision, HookOutcome::Allow);
    assert_eq!(decision.exit_code, 0);
    assert!(!decision.is_blocking());
}

#[test]
fn writes_jsonl_record_with_newline() {
    let writer = HookLogWriter::new("hooks.jsonl");
    let mut record = HookExecutionRecord::new(HookEvent::Notification, local(), "local.notify");
    record.decision = HookDecision {
        decision: HookOutcome::Allow,
        message: Some("ok".to_string()),
        system_message: None,
        stop_reason: None,
        extra: None,
        exit_code: 0,
    };
    let mut object = serde_json::Map::new();
    object.insert("hookId".to_string(), serde_json::Value::String(record.hook_id.clone()));
    let json = serde_json::to_string(&serde_json::Value::Object(object)).unwrap();
    let contents = writer.line_for(&json);
    assert!(contents.ends_with('\n'));
    let line = contents.trim_end();
    let parsed: serde_json::Value = serde_json::from_str(line).unwrap();
    assert_eq!(parsed["hookId"], "local.notify");
    assert_eq!(record.decision.message.as_deref(), Some("ok"));
    assert_eq!(record.precedence_rank, 0);
    assert_eq!(writer.directory_to_create(), None);
}

#[test]
fn session_notifications_are_recorded_when_a_log_is_kept() {
    let executor = HookExecutor::with_runtime(
        HookRegistry::new(),
        HookLogWriter::new("/tmp/hooks.jsonl"),
        local(),
    );
    let start = executor.notify_session_start().expect("record");
    assert_eq!(start.event, HookEvent::SessionStart);
    assert_eq!(start.hook_id, "codex.session.start");
    let end = executor.notify_session_end().expect("record");
    assert_eq!(end.event, HookEvent::SessionEnd);
    let prompt = executor.notify_user_prompt().expect("record");
    assert_eq!(prompt.event, HookEvent::UserPromptSubmit);
    let post = executor.record_post_tool_use("ls", 3).expect("record");
    assert_eq!(post.event, HookEvent::PostToolUse);
    assert_eq!(post.decision.exit_code, 3);
    assert_eq!(post.trigger_id, "ls");
    assert!(HookExecutor::default().notify_session_start().is_none());
}

#[test]
fn snapshot_lists_hooks_by_id_under_the_filters() {
    let mut registry = HookRegistry::new();
    let mut stop = definition_with_scope("z.stop", local());
    stop.event = HookEvent::Stop;
    registry.insert(vec![
        definition_with_scope("b", local()),
        definition_with_scope("a", project()),
        stop,
    ]);
    let all = build_hook_registry_snapshot(&registry, &HookListRequest { event: None, scope: None });
    let listed: Vec<(HookEvent, Vec<&str>)> = all
        .events
        .iter()
        .map(|(e, hooks)| (*e, hooks.iter().map(|h| h.id.as_str()).collect()))
        .collect();
    assert_eq!(
        listed,
        vec![(HookEvent::PreToolUse, vec!["a", "b"]), (HookEvent::Stop, vec!["z.stop"])]
    );
    let only_local = build_hook_registry_snapshot(
        &registry,
        &HookListRequest { event: Some(HookEvent::PreToolUse), scope: Some(HookScopeFilter::Local) },
    );
    assert_eq!(only_local.events.len(), 1);
    assert_eq!(only_local.events[0].1.len(), 1);
    assert_eq!(only_local.events[0].1[0].id, "b");
    let empty = build_hook_registry_snapshot(
        &HookRegistry::new(),
        &HookListRequest { event: None, scope: None },
    );
    assert!(empty.events.is_empty());
}

#[test]
fn events_have_names_and_an_order() {
    assert_eq!(format_event(HookEvent::PreToolUse), "PreToolUse");
    assert_eq!(parse_hook_event("SessionEnd"), Some(HookEvent::SessionEnd));
    assert_eq!(parse_hook_event("sessionend"), Some(HookEvent::SessionEnd));
    assert_eq!(parse_hook_event("pre-tool-use"), Some(HookEvent::PreToolUse));
    assert_eq!(parse_hook_event("unknown"), None);
    assert_eq!(event_order(HookEvent::PreToolUse), 0);
    assert_eq!(event_order(HookEvent::SessionEnd), 8);
    assert_eq!(precedence_rank(&managed()), 0);
    assert_eq!(precedence_rank(&project()), 1);
    assert_eq!(precedence_rank(&local()), 2);
}

#[test]
fn validation_status_maps_to_labels_and_exit_codes() {
    assert_eq!(validation_exit_code(HookValidationStatus::Okay), 0);
    assert_eq!(validation_exit_code(HookValidationStatus::Warning), 3);
    assert_eq!(validation_exit_code(HookValidationStatus::Error), 2);
    assert_eq!(status_label(HookValidationStatus::Okay), "ok");
    assert_eq!(status_label(HookValidationStatus::Warning), "warning");
    assert_eq!(status_label(HookValidationStatus::Error), "error");
}

fn record_at(millis: i64, event: HookEvent, hook_id: &str) -> HookExecutionRecord {
    let mut record = HookExecutionRecord::new(event, local(), hook_id);
    record.timestamp = Timestamp { millis };
    record
}

#[test]
fn exec_log_is_filtered_and_cut_to_its_tail() {
    let records = vec![
        record_at(10, HookEvent::PreToolUse, "a"),
        record_at(20, HookEvent::PostToolUse, "a"),
        record_at(30, HookEvent::PreToolUse, "b"),
        record_at(40, HookEvent::PreToolUse, "a"),
    ];
    let request = HookExecLogRequest {
        since: Some(Timestamp { millis: 20 }),
        event: Some(HookEvent::PreToolUse),
        hook_id: None,
        tail: None,
    };
    let ids: Vec<i64> =
        filter_exec_log(&records, &request).iter().map(|r| r.timestamp.millis).collect();
    assert_eq!(ids, vec![30, 40]);
    let request = HookExecLogRequest { since: None, event: None, hook_id: Some("a".into()), tail: Some(2) };
    let ids: Vec<i64> =
        filter_exec_log(&records, &request).iter().map(|r| r.timestamp.millis).collect();
    assert_eq!(ids, vec![20, 40]);
}

#[test]
fn commands_are_summarized_in_sixty_characters() {
    assert_eq!(summarize_command(&Vec::new()), None);
    assert_eq!(
        summarize_command(&vec!["echo".to_string(), "hi".to_string()]).as_deref(),
        Some("echo hi")
    );
    let long = "x".repeat(70);
    let shown = summarize_command(&vec![long]).unwrap();
    assert_eq!(shown.chars().count(), 60);
    assert!(shown.ends_with('…'));
    assert_eq!(ellipsize("héllo", 5), "héllo");
    assert_eq!(ellipsize("héllo!", 5), "héll…");
    assert_eq!(ellipsize("abc", 0), "…");
}

fn tool_matches(pattern: &str, tool: &str) -> bool {
    PlanModeAllowList::new(&vec![pattern.to_string()]).matches_tool(tool)
}

#[test]
fn wildcards_match_whole_inputs() {
    assert!(tool_matches("n8n-mcp__list_*", "n8n-mcp__list_nodes"));
    assert!(!tool_matches("n8n-mcp__list_*", "n8n-mcp__get_workflow"));
    assert!(tool_matches("c?t", "cat"));
    assert!(!tool_matches("c?t", "cart"));
    assert!(tool_matches("c*", "c"));
    assert!(!tool_matches("c*t", "cat "));
}

#[test]
fn checksums_are_sha1_in_hex() {
    assert_eq!(checksum(""), "da39a3ee5e6b4b0d3255bfef95601890afd80709");
    assert_eq!(checksum("abc"), "a9993e364706816aba3e25717850c26c9cd0d89d");
}

#[test]
fn timestamps_are_written_as_rfc3339() {
    let at = |millis: i64| {
        let entry = PlanEntry::at(PlanEntryType::Command, "ls", Timestamp { millis });
        PlanEntryPayload::from_entry(&entry).created_at
    };
    assert_eq!(at(1_758_369_600_000), "2025-09-20T12:00:00+00:00");
    assert_eq!(at(i64::MAX), "");
}
