use agent_core::clock::Timestamp;
use agent_core::hooks::definition::HookDefinition;
use agent_core::hooks::events::HookEvent;
use agent_core::hooks::layer_summary::HookLayerSummary;
use agent_core::hooks::matchers::{HookMatcher, HookMatchers};
use agent_core::hooks::panel::{
    build_hook_panel_lines, describe_matcher, describe_matcher_list, render_event_header,
    render_hook_definition, render_layer_summary, render_matchers_line, render_notes_line,
    render_skipped_hook, total_hook_count, Look, PanelColor, PanelSpan,
};
use agent_core::hooks::scope::HookScope;
use agent_core::hooks::skipped::{HookSkipReason, SkippedHook};
use agent_core::hooks::snapshot::HookRegistrySnapshot;

fn text_of(line: &[PanelSpan]) -> String {
    line.iter().map(|s| s.text.as_str()).collect()
}

fn texts(lines: &[Vec<PanelSpan>]) -> Vec<String> {
    lines.iter().map(|l| text_of(l)).collect()
}

fn managed() -> HookScope {
    HookScope::ManagedPolicy { name: "org".to_string() }
}

fn project() -> HookScope {
    HookScope::Project { project_root: "/p".to_string() }
}

fn local() -> HookScope {
    HookScope::LocalUser { codex_home: "/h".to_string() }
}

fn hook(id: &str, event: HookEvent, scope: HookScope) -> HookDefinition {
    let mut definition = HookDefinition::new(id, event, scope);
    definition.command = vec!["run".to_string(), id.to_string()];
    definition
}

fn empty_snapshot() -> HookRegistrySnapshot {
    HookRegistrySnapshot { events: Vec::new(), layers: Vec::new(), last_loaded: None }
}

#[test]
fn the_panel_says_when_there_is_nothing_to_show() {
    assert_eq!(
        texts(&build_hook_panel_lines(&empty_snapshot(), None, true)),
        vec!["Hook Inspector", "", "Loading hook registry\u{2026}"]
    );
    assert_eq!(
        texts(&build_hook_panel_lines(&empty_snapshot(), Some("bad toml"), false)),
        vec![
            "Hook Inspector",
            "",
            "Error loading hooks: bad toml",
            "",
            "Last loaded: never",
            "Events: 0  Hooks: 0  Layers: 0",
            "",
            "No hooks are currently configured.",
        ]
    );
    let lines = build_hook_panel_lines(&empty_snapshot(), Some("bad toml"), false);
    assert_eq!(
        lines[2][0].look,
        Look { bold: true, dim: false, italic: false, color: Some(PanelColor::Red) }
    );
    assert_eq!(lines[0][0].look, Look { bold: true, dim: false, italic: false, color: None });
}

#[test]
fn the_panel_lists_layers_and_events_in_order() {
    let mut noted = hook("b.guard", HookEvent::PreToolUse, project());
    noted.notes = Some("keeps the tree clean".to_string());
    noted.timeout_ms = Some(1500);
    noted.allow_parallel = true;
    noted.matchers = HookMatchers {
        tool_names: vec![
            HookMatcher::Exact { value: "shell".to_string() },
            HookMatcher::Glob { value: "sh*".to_string() },
        ],
        sources: Vec::new(),
        paths: vec![HookMatcher::Regex { value: "^src/".to_string() }],
        tags: vec!["safety".to_string(), "ci".to_string()],
    };
    let mut skipping = HookLayerSummary::new(local(), "/h/hooks.toml");
    skipping.loaded_hooks = 2;
    skipping.skipped_hooks.push(SkippedHook {
        hook_id: Some("dup".to_string()),
        reason: HookSkipReason::DuplicateId,
        details: Some("seen before".to_string()),
    });
    let mut first = HookLayerSummary::new(managed(), "/etc/codex/hooks.toml");
    first.loaded_hooks = 1;
    let snapshot = HookRegistrySnapshot {
        events: vec![
            (HookEvent::SessionEnd, vec![hook("bye", HookEvent::SessionEnd, local())]),
            (
                HookEvent::PreToolUse,
                vec![
                    hook("z.guard", HookEvent::PreToolUse, local()),
                    noted,
                    hook("a.guard", HookEvent::PreToolUse, managed()),
                ],
            ),
        ],
        layers: vec![skipping, first],
        last_loaded: Some(Timestamp { millis: 1_758_369_600_000 }),
    };
    assert_eq!(total_hook_count(&snapshot), 4);
    assert_eq!(
        texts(&build_hook_panel_lines(&snapshot, None, true)),
        vec![
            "Hook Inspector",
            "",
            "Refreshing hook registry\u{2026}",
            "",
            "Last loaded: 2025-09-20T12:00:00.000Z",
            "Events: 2  Hooks: 4  Layers: 2",
            "",
            "Layers",
            "  \u{2022} managed:org /etc/codex/hooks.toml  (1 loaded)",
            "  \u{2022} local /h/hooks.toml  (2 loaded, 1 skipped)",
            "        \u{21b3} skipped dup (duplicate-id) \u{2013} seen before",
            "",
            "PreToolUse  3 hooks",
            "    \u{2022} managed:org a.guard  run a.guard",
            "    \u{2022} project b.guard  timeout 1500ms  parallel  run b.guard",
            "        \u{21b3} keeps the tree clean",
            "        \u{21b3} filters tool==\"shell\",glob:sh* \u{b7} path=re:^src/ \u{b7} tags=safety,ci",
            "    \u{2022} local z.guard  run z.guard",
            "",
            "SessionEnd  1 hook",
            "    \u{2022} local bye  run bye",
        ]
    );
}

#[test]
fn the_lines_of_the_panel_are_made_of_pieces() {
    let layer = HookLayerSummary::new(project(), "/p/hooks.toml");
    let line = render_layer_summary(&layer);
    assert_eq!(text_of(&line), "  \u{2022} project /p/hooks.toml  (0 loaded)");
    assert_eq!(
        line[1].look,
        Look { bold: true, dim: false, italic: false, color: Some(PanelColor::Magenta) }
    );
    assert_eq!(
        line[3].look,
        Look { bold: false, dim: false, italic: false, color: Some(PanelColor::Cyan) }
    );
    let skipped =
        SkippedHook { hook_id: None, reason: HookSkipReason::InvalidSchema, details: None };
    assert_eq!(text_of(&render_skipped_hook(&skipped)), "        \u{21b3} skipped (invalid-schema)");
    assert_eq!(text_of(&render_event_header(HookEvent::Stop, 0)), "Stop  0 hooks");
    let mut bare = HookDefinition::new("x", HookEvent::Stop, local());
    bare.command = Vec::new();
    assert_eq!(text_of(&render_hook_definition(&bare)), "    \u{2022} local x");
    let notes = render_notes_line("remember");
    assert_eq!(text_of(&notes), "        \u{21b3} remember");
    assert_eq!(notes[1].look, Look { bold: false, dim: true, italic: true, color: None });
    assert_eq!(render_matchers_line(&HookMatchers::default()), None);
    assert_eq!(describe_matcher(&HookMatcher::Exact { value: "a".to_string() }), "=\"a\"");
    assert_eq!(describe_matcher_list(&Vec::new()), "");
}
