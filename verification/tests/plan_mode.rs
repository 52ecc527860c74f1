use agent_core::clock::Timestamp;
use agent_core::plan_mode::allow_list::PlanModeAllowList;
use agent_core::plan_mode::artifact::{PlanArtifact, PlanArtifactMetadata};
use agent_core::plan_mode::capability::{ToolCapability, ToolMode};
use agent_core::plan_mode::config::PlanModeConfig;
use agent_core::plan_mode::entry::PlanEntryType;
use agent_core::plan_mode::payload::{PlanArtifactPayload, PlanEntryTypePayload};
use agent_core::plan_mode::session::{PlanModeSession, PlanModeState};
use agent_core::plan_mode::shell::{
    is_shell_executable, shell_command_candidates, strip_shell_wrapper,
};
use agent_core::plan_mode::telemetry::{PlanModeEvent, PlanTelemetry};
use agent_core::protocol::AskForApproval;

const DEFAULT_SHELL_ENTRIES: &[&str] = &[
    "shell(bash -lc cat *)",
    "shell(bash -lc find *)",
    "shell(bash -lc grep *)",
    "shell(bash -lc ls *)",
    "shell(bash -lc tree *)",
    "shell(bash -lc head *)",
    "shell(bash -lc tail *)",
    "shell(bash -lc stat *)",
    "shell(bash -lc pwd *)",
    "shell(bash -lc pwd)",
    "shell(bash -lc git status)",
    "shell(bash -lc git diff --stat)",
];

fn sample_tools() -> Vec<ToolCapability> {
    vec![
        ToolCapability::new("fs.read", ToolMode::ReadOnly),
        ToolCapability::new("shell", ToolMode::Execute),
    ]
}

fn vec_cmd(parts: &[&str]) -> Vec<String> {
    parts.iter().map(|s| s.to_string()).collect()
}

fn session() -> PlanModeSession {
    PlanModeSession::new(
        uuid::Uuid::new_v4(),
        AskForApproval::OnRequest,
        vec![ToolCapability::new("fs.read", ToolMode::ReadOnly)],
        &PlanModeConfig::default(),
        true,
    )
}

fn session_with_config(config: PlanModeConfig) -> PlanModeSession {
    let tools = vec![
        ToolCapability::new("attachments.read", ToolMode::ReadOnly).with_network_requirement(true),
    ];
    PlanModeSession::new(uuid::Uuid::new_v4(), AskForApproval::OnRequest, tools, &config, true)
}

fn tools_of(session: &PlanModeSession) -> Vec<&str> {
    session.allowed_tool_ids().iter().map(|s| s.as_str()).collect()
}

#[test]
fn activation_flow_enters_plan_state() {
    let config = PlanModeConfig {
        plan_enabled: true,
        allowed_read_only_tools: vec!["fs.read".to_string()],
        planning_model: None,
        apply_requires_confirmation: true,
    };
    let session_id = uuid::Uuid::new_v4();
    let session =
        PlanModeSession::new(session_id, AskForApproval::OnRequest, sample_tools(), &config, true);

    assert!(
        session.is_active(),
        "session should be active after activation"
    );
    assert_eq!(session.state, PlanModeState::Active);
    assert_eq!(session.entered_from, AskForApproval::OnRequest);
    assert_eq!(session.session_id, session_id);

    let telemetry: PlanTelemetry = session.entered_telemetry();
    assert_eq!(telemetry.event, PlanModeEvent::Entered);
    assert_eq!(telemetry.plan_entry_count, 0);
}

#[test]
fn apply_plan_injects_artifact_and_overrides_mode() {
    let mut session = PlanModeSession::new(
        uuid::Uuid::new_v4(),
        AskForApproval::OnRequest,
        vec![ToolCapability::new("fs.read", ToolMode::ReadOnly)],
        &PlanModeConfig::default(),
        true,
    );

    session.begin_apply(Some(AskForApproval::OnFailure));
    assert_eq!(session.state, PlanModeState::Applying);
    assert_eq!(session.pending_exit, Some(AskForApproval::OnFailure));
    assert!(!session.is_active());
}

#[test]
fn external_attachments_are_blocked_with_guidance() {
    let restricted = session_with_config(PlanModeConfig::default());
    let tools = tools_of(&restricted);
    assert_eq!(tools, DEFAULT_SHELL_ENTRIES);

    let config = PlanModeConfig {
        plan_enabled: true,
        allowed_read_only_tools: vec!["attachments.read".to_string()],
        planning_model: None,
        apply_requires_confirmation: true,
    };
    let allowed = session_with_config(config);
    let tools = tools_of(&allowed);
    let mut expected = DEFAULT_SHELL_ENTRIES.to_vec();
    expected.push("attachments.read");
    assert_eq!(tools, expected);
}

#[test]
fn exit_plan_restores_prior_mode() {
    let mut session = PlanModeSession::new(
        uuid::Uuid::new_v4(),
        AskForApproval::OnFailure,
        vec![ToolCapability::new("fs.read", ToolMode::ReadOnly)],
        &PlanModeConfig::default(),
        true,
    );

    session.exit_plan_mode();
    assert_eq!(session.state, PlanModeState::Exited);
    assert!(session.pending_exit.is_none());
    assert_eq!(session.entered_from, AskForApproval::OnFailure);
}

#[test]
fn read_only_tools_remain_available() {
    let tools = vec![
        ToolCapability::new("fs.read", ToolMode::ReadOnly),
        ToolCapability::new("fs.write", ToolMode::Write),
        ToolCapability::new("shell", ToolMode::Execute),
    ];
    let config = PlanModeConfig::default();

    let session = PlanModeSession::new(uuid::Uuid::new_v4(), AskForApproval::OnRequest, tools, &config, true);

    let collected = tools_of(&session);
    let mut expected = DEFAULT_SHELL_ENTRIES.to_vec();
    expected.push("fs.read");
    assert_eq!(
        collected, expected,
        "default shell helpers and read-only tools should remain"
    );
    assert!(session.is_tool_allowed("fs.read"));
    assert!(!session.is_tool_allowed("fs.write"));
}

#[test]
fn wildcard_tool_rules_match_expected_tools() {
    let config = PlanModeConfig {
        allowed_read_only_tools: vec!["n8n-mcp__list_*".to_string()],
        ..Default::default()
    };

    let session =
        PlanModeSession::new(uuid::Uuid::new_v4(), AskForApproval::OnRequest, Vec::new(), &config, true);

    assert!(session.is_tool_allowed("n8n-mcp__list_nodes"));
    assert!(!session.is_tool_allowed("n8n-mcp__get_workflow"));

    let display = tools_of(&session);
    let mut expected = DEFAULT_SHELL_ENTRIES.to_vec();
    expected.push("n8n-mcp__list_*");
    assert_eq!(display, expected);
}

#[test]
fn file_edit_requests_are_captured_as_plan_entries() {
    let mut session = session();
    let telemetry = session.record_refusal(
        PlanEntryType::FileChange,
        "edit src/lib.rs",
        Some("diff --git".to_string()),
    );

    assert_eq!(telemetry.event, PlanModeEvent::RefusalCaptured);
    let artifact = session.plan_artifact();
    assert_eq!(artifact.entry_count(), 1);
    let entry = artifact.steps.first().expect("entry should exist");
    assert_eq!(entry.sequence, 1);
    assert_eq!(entry.entry_type, PlanEntryType::FileChange);
    assert_eq!(entry.summary, "edit src/lib.rs");
    assert_eq!(entry.details.as_deref(), Some("diff --git"));
}

#[test]
fn shell_commands_are_blocked_and_recorded() {
    let mut session = session();
    let telemetry = session.record_refusal(PlanEntryType::Command, "rm -rf /tmp", None);

    assert_eq!(telemetry.event, PlanModeEvent::RefusalCaptured);
    let artifact = session.plan_artifact();
    assert_eq!(artifact.entry_count(), 1);
    let entry = artifact.steps.first().expect("entry should exist");
    assert_eq!(entry.entry_type, PlanEntryType::Command);
    assert_eq!(entry.summary, "rm -rf /tmp");
    assert_eq!(telemetry.plan_entry_count, 1);
}

#[test]
fn shell_allowlist_is_shell_agnostic() {
    let config = PlanModeConfig {
        allowed_read_only_tools: vec!["shell(git status)".to_string()],
        ..Default::default()
    };

    let session =
        PlanModeSession::new(uuid::Uuid::new_v4(), AskForApproval::OnRequest, Vec::new(), &config, true);

    let bash = vec_cmd(&["/bin/bash", "-lc", "git status"]);
    assert!(session.is_shell_allowed(&bash));

    let zsh = vec_cmd(&["zsh", "-lc", "git status"]);
    assert!(session.is_shell_allowed(&zsh));

    let direct = vec_cmd(&["git", "status"]);
    assert!(session.is_shell_allowed(&direct));

    let disallowed = vec_cmd(&["git", "diff"]);
    assert!(!session.is_shell_allowed(&disallowed));
}

#[test]
fn shell_commands_can_be_allowed_via_pattern() {
    let config = PlanModeConfig {
        allowed_read_only_tools: vec!["shell(cat *)".to_string()],
        ..Default::default()
    };

    let session =
        PlanModeSession::new(uuid::Uuid::new_v4(), AskForApproval::OnRequest, Vec::new(), &config, true);

    let cat = vec_cmd(&["cat", "README.md"]);
    assert!(session.is_shell_allowed(&cat));
    let npm = vec_cmd(&["npm", "run", "test:unit"]);
    assert!(!session.is_shell_allowed(&npm));
}

#[test]
fn default_shell_commands_are_allowed() {
    let session = session();

    let cases: Vec<(Vec<String>, &str)> = vec![
        (vec_cmd(&["bash", "-lc", "cat README.md"]), "cat"),
        (vec_cmd(&["bash", "-lc", "find ."]), "find"),
        (vec_cmd(&["bash", "-lc", "grep pattern"]), "grep"),
        (vec_cmd(&["bash", "-lc", "ls -a"]), "ls"),
        (vec_cmd(&["bash", "-lc", "tree ."]), "tree"),
        (vec_cmd(&["bash", "-lc", "head README.md"]), "head"),
        (vec_cmd(&["bash", "-lc", "tail README.md"]), "tail"),
        (vec_cmd(&["bash", "-lc", "stat README.md"]), "stat"),
        (vec_cmd(&["bash", "-lc", "pwd"]), "pwd"),
        (vec_cmd(&["bash", "-lc", "git status"]), "git status"),
        (
            vec_cmd(&["bash", "-lc", "git diff --stat"]),
            "git diff --stat",
        ),
    ];

    for (command, label) in cases {
        assert!(
            session.is_shell_allowed(&command),
            "expected default {label} command to be allowed"
        );
    }
    assert!(!session.is_shell_allowed(&vec_cmd(&["bash", "-lc", "rm -rf /"])));
    assert!(!session.is_shell_allowed(&Vec::new()));
}

#[test]
fn default_shell_commands_are_preserved_with_custom_allowlist() {
    let config = PlanModeConfig {
        allowed_read_only_tools: vec!["shell(bash -lc echo *)".to_string()],
        ..Default::default()
    };

    let session = PlanModeSession::new(
        uuid::Uuid::new_v4(),
        AskForApproval::OnRequest,
        vec![ToolCapability::new("fs.read", ToolMode::ReadOnly)],
        &config,
        true,
    );

    let cat = vec_cmd(&["bash", "-lc", "cat README.md"]);
    assert!(session.is_shell_allowed(&cat));
    let status = vec_cmd(&["bash", "-lc", "git status"]);
    assert!(session.is_shell_allowed(&status));
    let diff = vec_cmd(&["bash", "-lc", "git diff --stat"]);
    assert!(session.is_shell_allowed(&diff));
    let pwd = vec_cmd(&["bash", "-lc", "pwd"]);
    assert!(session.is_shell_allowed(&pwd));
    let echo = vec_cmd(&["bash", "-lc", "echo hello"]);
    assert!(session.is_shell_allowed(&echo));
}

#[test]
fn warns_when_plan_template_missing() {
    let mut session = PlanModeSession::new(
        uuid::Uuid::new_v4(),
        AskForApproval::OnRequest,
        vec![ToolCapability::new("fs.read", ToolMode::ReadOnly)],
        &PlanModeConfig::default(),
        true,
    );

    let metadata = PlanArtifactMetadata {
        template: None,
        model: Some("gpt-5".to_string()),
        updated_at: Some(Timestamp { millis: 1_758_369_600_000 }),
    };
    session.set_artifact_metadata(metadata.clone());

    assert_eq!(session.plan_artifact().metadata, metadata);
}

fn sample_artifact() -> PlanArtifact {
    PlanArtifact {
        title: "Ship Plan Mode".to_string(),
        objectives: vec!["Keep workspace read-only".to_string()],
        constraints: vec!["No shell access".to_string()],
        assumptions: vec!["Sandbox enforced".to_string()],
        approach: vec!["Collect requirements".to_string()],
        steps: Vec::new(),
        affected_areas: vec!["core/session".to_string()],
        risks: vec!["User confusion".to_string()],
        alternatives: vec!["Allow writes with confirmations".to_string()],
        next_actions: vec!["Exit Plan Mode".to_string()],
        tests: vec!["Run plan_mode suite".to_string()],
        rollback: vec!["Restore from git".to_string()],
        success_criteria: vec!["All specs satisfied".to_string()],
        metadata: PlanArtifactMetadata::default(),
    }
}

#[test]
fn summary_markdown_includes_required_sections() {
    let mut artifact = sample_artifact();
    artifact.push_summary_entry(PlanEntryType::Command, "Draft implementation");

    let summary = artifact.to_summary_markdown();
    assert!(summary.contains("Objectives:"));
    assert!(summary.contains("Constraints:"));
    assert!(summary.contains("Steps:"));
    assert!(summary.contains("Rollback / Mitigations:"));
    assert!(summary.contains("Reminder: Save this plan"));
    assert!(summary.starts_with("Plan Ready for Execution: Ship Plan Mode\n"));
    assert!(summary.contains("Steps:\n1. Draft implementation"));
    assert_eq!(artifact.next_sequence(), 2);
}

#[test]
fn blank_shell_entry_adds_no_rule() {
    let list = PlanModeAllowList::new(&vec![
        "shell()".to_string(),
        "shell(   )".to_string(),
        "  fs.read  ".to_string(),
        "fs.read".to_string(),
        "mcp__*".to_string(),
    ]);
    let raw: Vec<&str> = list.raw_entries().iter().map(|s| s.as_str()).collect();
    let mut expected = DEFAULT_SHELL_ENTRIES.to_vec();
    expected.extend(["shell()", "shell(   )", "fs.read", "mcp__*"]);
    assert_eq!(raw, expected);
    assert!(!list.matches_tool("shell()"));
    assert!(list.matches_tool("fs.read"));
    assert!(list.matches_tool("mcp__anything"));
    assert_eq!(list.literal_tool_ids(), vec!["fs.read".to_string()]);
    assert!(list.has_tool_rules());
    assert!(!list.matches_shell_command(&vec_cmd(&["true"])));
    assert!(!PlanModeAllowList::new(&Vec::new()).has_tool_rules());
}

#[test]
fn shell_wrappers_are_stripped_for_matching() {
    assert!(is_shell_executable("zsh"));
    assert!(is_shell_executable("bash"));
    assert!(is_shell_executable("cmd.exe"));
    assert!(!is_shell_executable("/usr/bin/zsh"));
    assert!(!is_shell_executable("python"));
    assert_eq!(
        strip_shell_wrapper(&vec_cmd(&["bash", "-lc", "git status"])),
        Some(vec_cmd(&["git status"]))
    );
    assert_eq!(strip_shell_wrapper(&vec_cmd(&["git", "status"])), None);
    let candidates = shell_command_candidates(&vec_cmd(&["zsh", "-c", "ls -a"]));
    assert_eq!(candidates, vec!["zsh -c ls -a".to_string(), "ls -a".to_string()]);
    assert_eq!(
        shell_command_candidates(&vec_cmd(&["/usr/bin/zsh", "-c", "ls -a"])),
        vec!["/usr/bin/zsh -c ls -a".to_string(), "ls -a".to_string()]
    );
    assert!(shell_command_candidates(&Vec::new()).is_empty());
}

#[test]
fn payloads_mirror_the_artifact() {
    let mut artifact = sample_artifact();
    artifact.push_summary_entry(PlanEntryType::Research, "Read the docs");
    let payload = PlanArtifactPayload::from_artifact(&artifact);
    assert_eq!(payload.title, "Ship Plan Mode");
    assert_eq!(payload.steps.len(), 1);
    assert_eq!(payload.steps[0].sequence, 1);
    assert_eq!(payload.steps[0].entry_type, PlanEntryTypePayload::Research);
    assert_eq!(payload.steps[0].summary, "Read the docs");
    let session = session();
    let shown = session.to_payload();
    assert_eq!(shown.entered_from, AskForApproval::OnRequest);
    assert_eq!(shown.session_id, session.session_id);
}

#[test]
fn entries_that_name_no_command_are_reported_and_give_no_rule() {
    let list = PlanModeAllowList::new(&vec![
        "shell()".to_string(),
        "shell(   )".to_string(),
        "shell(make test)".to_string(),
        "read_file".to_string(),
    ]);
    assert_eq!(list.ignored_entries(), vec!["shell()".to_string(), "shell(   )".to_string()]);
    assert!(list.matches_shell_command(&vec!["make".to_string(), "test".to_string()]));
    assert!(list.matches_tool("read_file"));
    assert!(!list.matches_tool("shell()"));
    let defaults = PlanModeAllowList::new(&Vec::new());
    assert!(defaults.ignored_entries().is_empty());
}

#[test]
fn an_instant_is_written_in_the_compact_form() {
    assert_eq!(
        agent_core::clock::to_compact_utc(Timestamp { millis: 0 }),
        Some("19700101T000000Z".to_string())
    );
    assert_eq!(
        agent_core::clock::to_compact_utc(Timestamp { millis: 1_700_000_000_123 }),
        Some("20231114T221320Z".to_string())
    );
    assert_eq!(agent_core::clock::to_compact_utc(Timestamp { millis: i64::MAX }), None);
}
