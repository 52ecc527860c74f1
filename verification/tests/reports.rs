use agent_core::clock::Timestamp;
use agent_core::hooks::decision::HookOutcome;
use agent_core::hooks::definition::HookDefinition;
use agent_core::hooks::events::HookEvent;
use agent_core::hooks::execution_record::HookExecutionRecord;
use agent_core::hooks::inspect::HookValidationStatus;
use agent_core::hooks::layer_summary::HookLayerSummary;
use agent_core::hooks::registry::HookRegistry;
use agent_core::hooks::report::{
    build_list_report, exec_record_entry, list_rows, render_exec_log, render_validation,
    EventReport, HookReport, LayerReport, SkippedReport,
};
use agent_core::hooks::scope::HookScope;
use agent_core::hooks::skipped::{HookSkipReason, SkippedHook};
use agent_core::hooks::snapshot::{
    build_hook_registry_snapshot, HookListRequest, HookRegistrySnapshot,
};
use agent_core::order::sorted_order;
use agent_core::subagents::builder::SubagentBuilder;
use agent_core::subagents::config::{SubagentConfig, SubagentDiscoveryMode};
use agent_core::subagents::definition::{SubagentDefinition, SubagentScope};
use agent_core::subagents::inventory::SubagentInventory;
use agent_core::subagents::invocation::InvocationSession;
use agent_core::subagents::report::{
    build_list_payload, display_scope, find_record, render_record, render_run, run_session,
    scope_matches, ScopeFilter,
};

fn hook(id: &str, event: HookEvent, scope: HookScope, command: &[&str]) -> HookDefinition {
    let mut definition = HookDefinition::new(id, event, scope);
    definition.command = command.iter().map(|s| s.to_string()).collect();
    definition
}

fn local() -> HookScope {
    HookScope::LocalUser { codex_home: "/h".to_string() }
}

fn project() -> HookScope {
    HookScope::Project { project_root: "/p".to_string() }
}

fn snapshot() -> HookRegistrySnapshot {
    let mut registry = HookRegistry::new();
    registry.insert(vec![
        hook("z.guard", HookEvent::PreToolUse, local(), &["./guard.sh", "--strict"]),
        hook("a.guard", HookEvent::PreToolUse, project(), &[]),
        hook("notify", HookEvent::Notification, local(), &["notify-send"]),
    ]);
    build_hook_registry_snapshot(&registry, &HookListRequest { event: None, scope: None })
}

#[test]
fn the_list_of_hooks_is_shown_in_columns_by_event_and_id() {
    let lines = agent_core::hooks::report::render_list(&snapshot());
    assert_eq!(
        lines,
        vec![
            "Event           Scope    ID".to_string(),
            "Notification    local    notify".to_string(),
            "    Command: notify-send".to_string(),
            "PreToolUse      project  a.guard".to_string(),
            "PreToolUse      local    z.guard".to_string(),
            "    Command: ./guard.sh --strict".to_string(),
        ]
    );
    let rows = list_rows(&snapshot());
    assert_eq!(rows.len(), 3);
    assert_eq!(rows[0].event, "Notification");
    let empty = HookRegistrySnapshot { events: Vec::new(), layers: Vec::new(), last_loaded: None };
    assert_eq!(
        agent_core::hooks::report::render_list(&empty),
        vec!["No hooks are currently registered.".to_string()]
    );
}

#[test]
fn the_list_report_orders_events_by_name_and_hooks_by_id() {
    let mut shown = snapshot();
    let mut layer = HookLayerSummary::new(project(), "/p/.codex/hooks.toml");
    layer.loaded_hooks = 1;
    layer.checksum = "abc".to_string();
    layer.skipped_hooks.push(SkippedHook {
        hook_id: Some("dup".to_string()),
        reason: HookSkipReason::DuplicateId,
        details: None,
    });
    shown.layers.push(layer);
    let report = build_list_report(&shown);
    assert_eq!(
        report.layers,
        vec![LayerReport {
            scope: "project".to_string(),
            path: "/p/.codex/hooks.toml".to_string(),
            checksum: "abc".to_string(),
            loaded_hooks: 1,
            skipped_hooks: vec![SkippedReport {
                hook_id: Some("dup".to_string()),
                reason: "DuplicateId".to_string(),
                details: None
            }],
        }]
    );
    assert_eq!(
        report.events,
        vec![
            EventReport {
                event: "Notification".to_string(),
                hooks: vec![HookReport {
                    id: "notify".to_string(),
                    scope: "local".to_string(),
                    command: vec!["notify-send".to_string()],
                    notes: None
                }],
            },
            EventReport {
                event: "PreToolUse".to_string(),
                hooks: vec![
                    HookReport {
                        id: "a.guard".to_string(),
                        scope: "project".to_string(),
                        command: Vec::new(),
                        notes: None
                    },
                    HookReport {
                        id: "z.guard".to_string(),
                        scope: "local".to_string(),
                        command: vec!["./guard.sh".to_string(), "--strict".to_string()],
                        notes: None
                    },
                ],
            },
        ]
    );
}

#[test]
fn the_audit_log_is_shown_in_columns() {
    assert_eq!(render_exec_log(&Vec::new()), vec!["No hook executions recorded yet.".to_string()]);
    let mut record = HookExecutionRecord::new(HookEvent::PreToolUse, local(), "guard");
    record.timestamp = Timestamp { millis: 1_758_369_600_042 };
    record.decision.decision = HookOutcome::Deny;
    record.decision.message = Some("no".to_string());
    let lines = render_exec_log(&vec![record]);
    assert_eq!(
        lines,
        vec![
            "Timestamp                 Event        Hook                     Decision  ".to_string(),
            "2025-09-20T12:00:00.042Z  PreToolUse   guard                    Deny      ".to_string(),
            "    Message: no".to_string(),
        ]
    );
    let mut record = HookExecutionRecord::new(HookEvent::PreToolUse, local(), "guard");
    record.timestamp = Timestamp { millis: 0 };
    let entry = exec_record_entry(&record);
    assert_eq!(entry.time, "1970-01-01T00:00:00.000Z");
    assert_eq!(entry.event, "PreToolUse");
    assert_eq!(entry.decision, "Allow");
    assert_eq!(entry.message, None);
    let mut record = HookExecutionRecord::new(HookEvent::PreToolUse, local(), "guard");
    record.timestamp = Timestamp { millis: i64::MIN };
    assert_eq!(exec_record_entry(&record).time, "");
}

#[test]
fn the_outcome_of_a_validation_is_shown() {
    assert_eq!(
        render_validation(&Vec::new(), HookValidationStatus::Okay),
        vec!["Validation status: OK".to_string(), "No hook layers evaluated.".to_string()]
    );
    let mut layer = HookLayerSummary::new(local(), "/h/hooks.toml");
    layer.loaded_hooks = 12;
    layer.skipped_hooks.push(SkippedHook {
        hook_id: None,
        reason: HookSkipReason::InvalidSchema,
        details: Some("hook id must not be empty".to_string()),
    });
    layer.skipped_hooks.push(SkippedHook {
        hook_id: Some("dup".to_string()),
        reason: HookSkipReason::DuplicateId,
        details: None,
    });
    assert_eq!(
        render_validation(&vec![layer], HookValidationStatus::Error),
        vec![
            "Validation status: ERROR".to_string(),
            "- local (/h/hooks.toml) \u{2192} hooks: 12".to_string(),
            "    skipped InvalidSchema: (unknown)".to_string(),
            "    skipped DuplicateId: dup".to_string(),
        ]
    );
}

#[test]
fn positions_are_ordered_by_their_keys_and_ties_keep_their_order() {
    let key = |a: &str, b: &str| (a.to_string(), b.to_string());
    let keys = vec![key("b", "2"), key("a", "9"), key("b", "1"), key("a", "9"), key("", "z")];
    assert_eq!(sorted_order(&keys), vec![4, 1, 3, 2, 0]);
    assert!(sorted_order(&Vec::new()).is_empty());
}

fn definition(name: &str, scope: SubagentScope, valid: bool) -> SubagentDefinition {
    SubagentDefinition {
        raw_name: name.to_uppercase(),
        name: name.to_string(),
        description: format!("{name} description"),
        tools: vec!["git_diff".to_string(), "tests".to_string()],
        model: Some("gpt-5".to_string()),
        instructions: "Do it.".to_string(),
        scope,
        source_path: format!("/agents/{name}.md"),
        validation_errors: if valid {
            Vec::new()
        } else {
            vec!["no body".to_string(), "no name".to_string()]
        },
    }
}

fn inventory() -> SubagentInventory {
    SubagentBuilder::new(SubagentConfig::enabled(SubagentDiscoveryMode::Auto))
        .with_definitions(vec![
            definition("zeta", SubagentScope::User, true),
            definition("alpha", SubagentScope::Project, true),
            definition("broken", SubagentScope::User, false),
        ])
        .build()
}

#[test]
fn the_list_of_sub_agents_is_shown() {
    let lines = agent_core::subagents::report::render_list(&inventory(), ScopeFilter::All, true);
    assert_eq!(
        lines,
        vec![
            "Available subagents:",
            "  - alpha (project)",
            "    Description: alpha description",
            "    Tools: git_diff, tests",
            "    Model: gpt-5",
            "    Source: /agents/alpha.md",
            "  - zeta (user)",
            "    Description: zeta description",
            "    Tools: git_diff, tests",
            "    Model: gpt-5",
            "    Source: /agents/zeta.md",
            "",
            "Invalid definitions:",
            "  - broken (user)",
            "    Errors: no body; no name",
            "    Source: /agents/broken.md",
        ]
    );
    let lines = agent_core::subagents::report::render_list(&inventory(), ScopeFilter::Project, true);
    assert_eq!(lines.len(), 6);
    assert_eq!(
        agent_core::subagents::report::render_list(&SubagentInventory::empty(), ScopeFilter::All, true),
        vec!["No subagents found.".to_string()]
    );
    let payload = build_list_payload(&inventory(), ScopeFilter::User, true);
    assert_eq!(payload.subagents.len(), 1);
    assert_eq!(payload.subagents[0].name, "zeta");
    assert_eq!(payload.subagents[0].status, "Active");
    assert_eq!(payload.invalid.len(), 1);
    assert_eq!(payload.invalid[0].status, "Invalid");
    assert!(build_list_payload(&inventory(), ScopeFilter::All, false).invalid.is_empty());
    assert!(scope_matches(ScopeFilter::All, SubagentScope::User));
    assert!(!scope_matches(ScopeFilter::Project, SubagentScope::User));
    assert_eq!(display_scope(SubagentScope::User), "user");
    assert_eq!(ScopeFilter::default(), ScopeFilter::All);
}

#[test]
fn a_single_sub_agent_and_the_outcome_of_a_run_are_shown() {
    let inventory = inventory();
    let found = find_record(&inventory, " Alpha ").expect("active agent");
    assert_eq!(
        render_record(found),
        vec![
            "Name: alpha",
            "Scope: project",
            "Description: alpha description",
            "Tools: git_diff, tests",
            "Model: gpt-5",
            "Source: /agents/alpha.md",
            "Status: Active",
        ]
    );
    let broken = find_record(&inventory, "BROKEN").expect("invalid agent");
    assert_eq!(
        render_record(broken).last().map(String::as_str),
        Some("Validation errors: no body; no name")
    );
    assert!(find_record(&inventory, "nobody").is_none());

    let session = run_session("Code Inspector", vec!["git_diff".to_string()]);
    assert_eq!(session.subagent_name, "code-inspector");
    assert!(session.confirmed);
    let mut done: InvocationSession = session;
    done.summary = Some("fine".to_string());
    done.resolved_model = Some("gpt-5".to_string());
    done.detail_artifacts = vec!["agents://code-inspector/sessions/latest".to_string()];
    assert_eq!(
        render_run(&done),
        vec![
            "Subagent: code-inspector",
            "Model: gpt-5",
            "Tools: git_diff",
            "Summary: fine",
            "Detail: agents://code-inspector/sessions/latest",
        ]
    );
    assert_eq!(render_run(&run_session("x", Vec::new())), vec!["Subagent: x"]);
}
