use agent_core::hooks::log_writer::{directory_from, HookLogWriter};
use agent_core::plan_mode::capability::ToolMode;
use agent_core::session::state::{plan_mode_capabilities, McpToolInfo};
use agent_core::subagents::definition::SubagentScope;
use agent_core::subagents::discovery::scope_for_place;
use agent_core::subagents::service::source_tree_of;

#[test]
fn the_scope_follows_from_where_a_file_lies() {
    assert_eq!(scope_for_place(Some(true)), SubagentScope::User);
    assert_eq!(scope_for_place(Some(false)), SubagentScope::Project);
    assert_eq!(scope_for_place(None), SubagentScope::Project);
}

#[test]
fn the_directory_of_a_log_is_its_parent_unless_that_is_empty() {
    assert_eq!(directory_from(Some("/tmp/logs".to_string())).as_deref(), Some("/tmp/logs"));
    assert_eq!(directory_from(Some(String::new())), None);
    assert_eq!(directory_from(None), None);
    assert_eq!(
        HookLogWriter::new("/var/log/codex/hooks.jsonl").directory_to_create().as_deref(),
        Some("/var/log/codex")
    );
    assert_eq!(HookLogWriter::new("hooks.jsonl").directory_to_create(), None);
}

#[test]
fn a_source_tree_has_one_directory_of_each_kind() {
    let tree = source_tree_of("/work/.codex/agents", "/home/u/.codex/agents");
    assert_eq!(tree.project, vec!["/work/.codex/agents".to_string()]);
    assert_eq!(tree.user, vec!["/home/u/.codex/agents".to_string()]);
}

fn tool(qualified: &str, name: &str, read_only: Option<bool>, open: Option<bool>) -> McpToolInfo {
    McpToolInfo {
        qualified_name: qualified.to_string(),
        name: name.to_string(),
        read_only_hint: read_only,
        open_world_hint: open,
    }
}

#[test]
fn plan_mode_knows_the_read_only_tools_once_each() {
    let tools = vec![
        tool("db__query", "query", Some(true), Some(true)),
        tool("db__write", "write", Some(false), None),
        tool("fs__query", "query", Some(true), None),
        tool("fs__stat", "stat", None, None),
        tool("attachments.read", "attachments.read", Some(true), Some(false)),
    ];
    let shown: Vec<(String, bool)> = plan_mode_capabilities(&tools)
        .into_iter()
        .map(|c| {
            assert_eq!(c.mode, ToolMode::ReadOnly);
            (c.id, c.requires_network)
        })
        .collect();
    assert_eq!(
        shown,
        vec![
            ("db__query".to_string(), true),
            ("query".to_string(), true),
            ("fs__query".to_string(), false),
            ("attachments.read".to_string(), false),
        ]
    );
    let none: Vec<(String, bool)> = plan_mode_capabilities(&Vec::new())
        .into_iter()
        .map(|c| (c.id, c.requires_network))
        .collect();
    assert_eq!(none, vec![("attachments.read".to_string(), true)]);
}
