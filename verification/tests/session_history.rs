use agent_core::plan_mode::config::PlanModeConfig;
use agent_core::plan_mode::session::PlanModeSession;
use agent_core::protocol::items::{
    convert_call_tool_result_to_function_call_output_payload, CallToolOutcome, ContentItem,
    FunctionCallOutputPayload, LocalShellAction, ResponseItem,
};
use agent_core::protocol::AskForApproval;
use agent_core::session::exec_output::{
    format_exec_output_str, ExecToolCallOutput, MODEL_FORMAT_HEAD_LINES, MODEL_FORMAT_MAX_BYTES,
    MODEL_FORMAT_MAX_LINES, MODEL_FORMAT_TAIL_LINES,
};
use agent_core::session::history::{
    build_compacted_history, collect_user_messages, reconstruct_history_from_rollout,
    ConversationHistory, RolloutItem,
};
use agent_core::session::setup::{record_initial_history, InitialHistory};
use agent_core::session::state::{plan_mode_system_prompt, SessionState};
use agent_core::session::turn_input::{complete_turn_input, synthesize_missing_outputs};

fn message(role: &str, text: &str) -> ResponseItem {
    let content = if role == "assistant" {
        ContentItem::OutputText { text: text.to_string() }
    } else {
        ContentItem::InputText { text: text.to_string() }
    };
    ResponseItem::Message { id: None, role: role.to_string(), content: vec![content] }
}

fn initial_context() -> Vec<ResponseItem> {
    vec![
        message("user", "<user_instructions>be brief</user_instructions>"),
        message("user", "<environment_context>cwd: /work</environment_context>"),
    ]
}

fn assert_plan_prompt(item: &ResponseItem) {
    match item {
        ResponseItem::Message { role, content, .. } => {
            assert_eq!(role, "user");
            assert!(content.iter().any(|ci| {
                matches!(
                    ci,
                    ContentItem::InputText { text }
                    if *text == plan_mode_system_prompt()
                )
            }));
        }
        other => panic!("expected plan mode prompt, got {other:?}"),
    }
}

fn sample_rollout() -> (Vec<RolloutItem>, Vec<ResponseItem>) {
    let mut rollout_items = Vec::new();
    let mut live_history = ConversationHistory::new();

    let context = initial_context();
    for item in &context {
        rollout_items.push(RolloutItem::ResponseItem(item.clone()));
    }
    live_history.record_items(&context);

    let user1 = message("user", "first user");
    live_history.record_items(&vec![user1.clone()]);
    rollout_items.push(RolloutItem::ResponseItem(user1.clone()));

    let assistant1 = message("assistant", "assistant reply one");
    live_history.record_items(&vec![assistant1.clone()]);
    rollout_items.push(RolloutItem::ResponseItem(assistant1.clone()));

    let summary1 = "summary one";
    let snapshot1 = live_history.contents();
    let rebuilt1 = build_compacted_history(&initial_context(), &snapshot1, summary1);
    live_history.replace(rebuilt1);
    rollout_items.push(RolloutItem::Compacted { message: summary1.to_string() });

    let user2 = message("user", "second user");
    live_history.record_items(&vec![user2.clone()]);
    rollout_items.push(RolloutItem::ResponseItem(user2.clone()));

    let assistant2 = message("assistant", "assistant reply two");
    live_history.record_items(&vec![assistant2.clone()]);
    rollout_items.push(RolloutItem::ResponseItem(assistant2.clone()));

    let summary2 = "summary two";
    let snapshot2 = live_history.contents();
    let rebuilt2 = build_compacted_history(&initial_context(), &snapshot2, summary2);
    live_history.replace(rebuilt2);
    rollout_items.push(RolloutItem::Compacted { message: summary2.to_string() });

    let user3 = message("user", "third user");
    live_history.record_items(&vec![user3.clone()]);
    rollout_items.push(RolloutItem::ResponseItem(user3.clone()));

    let assistant3 = message("assistant", "assistant reply three");
    live_history.record_items(&vec![assistant3.clone()]);
    rollout_items.push(RolloutItem::ResponseItem(assistant3.clone()));

    (rollout_items, live_history.contents())
}

fn plan_session(policy: AskForApproval) -> PlanModeSession {
    PlanModeSession::new(uuid::Uuid::new_v4(), policy, Vec::new(), &PlanModeConfig::default(), true)
}

#[test]
fn ensure_plan_mode_prompt_records_once_per_activation() {
    let mut state = SessionState::new();
    state.plan_mode = Some(plan_session(AskForApproval::OnRequest));
    state.plan_mode_prompt_recorded = false;

    assert!(state.plan_mode.is_some());
    assert!(!state.plan_mode_prompt_recorded);

    state.ensure_plan_mode_prompt_recorded();
    assert!(state.plan_mode_prompt_recorded);

    let items = state.turn_input_with_history(Vec::new());
    assert!(!items.is_empty());
    assert_plan_prompt(&items[0]);

    let items = state.turn_input_with_history(Vec::new());
    assert!(!items.is_empty());
    assert_plan_prompt(&items[0]);
    assert_eq!(items.len(), 1);

    state
        .try_exit_plan_mode()
        .expect("exit plan mode should succeed");

    state.plan_mode = Some(plan_session(AskForApproval::OnRequest));
    state.plan_mode_prompt_recorded = false;

    state.ensure_plan_mode_prompt_recorded();
    let items = state.turn_input_with_history(Vec::new());
    assert!(!items.is_empty());
    assert_plan_prompt(&items[0]);
}

#[test]
fn ensure_plan_mode_prompt_noop_without_plan_mode() {
    let mut state = SessionState::new();

    state.ensure_plan_mode_prompt_recorded();

    let items = state.turn_input_with_history(Vec::new());
    assert!(items.is_empty(), "expected no plan prompt to be included");
}

#[test]
fn reconstruct_history_matches_live_compactions() {
    let (rollout_items, expected) = sample_rollout();

    let reconstructed = reconstruct_history_from_rollout(&initial_context(), &rollout_items);

    assert_eq!(expected, reconstructed);
}

#[test]
fn reconstructed_history_has_the_expected_items() {
    let (rollout_items, _) = sample_rollout();
    let reconstructed = reconstruct_history_from_rollout(&initial_context(), &rollout_items);
    let mut expected = initial_context();
    expected.push(message("user", "first user"));
    expected.push(message("user", "second user"));
    expected.push(message("assistant", "summary two"));
    expected.push(message("user", "third user"));
    expected.push(message("assistant", "assistant reply three"));
    assert_eq!(reconstructed, expected);
}

#[test]
fn record_initial_history_reconstructs_resumed_transcript() {
    let (rollout_items, expected) = sample_rollout();
    let mut state = SessionState::new();

    let record = record_initial_history(
        &mut state,
        initial_context(),
        &InitialHistory::Resumed(rollout_items),
    );

    let actual = state.history.contents();
    assert_eq!(expected, actual);
    assert!(record.items.is_empty());
    assert!(!record.copy_rollout);
}

#[test]
fn record_initial_history_reconstructs_forked_transcript() {
    let (rollout_items, expected) = sample_rollout();
    let mut state = SessionState::new();

    let record = record_initial_history(
        &mut state,
        initial_context(),
        &InitialHistory::Forked(rollout_items),
    );

    let actual = state.history.contents();
    assert_eq!(expected, actual);
    assert!(record.copy_rollout);
}

#[test]
fn record_initial_history_of_a_new_session_is_its_context() {
    let mut state = SessionState::new();
    let record = record_initial_history(&mut state, initial_context(), &InitialHistory::New);
    assert_eq!(state.history.contents(), initial_context());
    assert_eq!(record.items, initial_context());
    assert!(!record.copy_rollout);
}

#[test]
fn user_messages_leave_the_context_out() {
    let mut items = initial_context();
    items.push(message("user", "hello"));
    items.push(message("assistant", "hi"));
    items.push(message("user", "again"));
    assert_eq!(
        collect_user_messages(&items, &initial_context()),
        vec!["hello".to_string(), "again".to_string()]
    );
}

fn text_block(s: &str) -> serde_json::Value {
    let mut map = serde_json::Map::new();
    map.insert("text".to_string(), serde_json::Value::String(s.to_string()));
    map.insert("type".to_string(), serde_json::Value::String("text".to_string()));
    serde_json::Value::Object(map)
}

fn blocks(texts: &[&str]) -> Result<String, String> {
    let list: Vec<serde_json::Value> = texts.iter().map(|t| text_block(t)).collect();
    serde_json::to_string(&list).map_err(|e| e.to_string())
}

fn object(pairs: Vec<(&str, serde_json::Value)>) -> serde_json::Value {
    let mut map = serde_json::Map::new();
    for (k, v) in pairs {
        map.insert(k.to_string(), v);
    }
    serde_json::Value::Object(map)
}

fn structured(value: &serde_json::Value) -> Option<String> {
    if value.is_null() {
        None
    } else {
        Some(serde_json::to_string(value).unwrap())
    }
}

#[test]
fn prefers_structured_content_when_present() {
    let value = object(vec![
        ("ok", serde_json::Value::Bool(true)),
        ("value", serde_json::Value::from(42)),
    ]);
    let ctr = CallToolOutcome {
        content: blocks(&["ignored"]),
        is_error: None,
        structured_content: structured(&value),
    };

    let got = convert_call_tool_result_to_function_call_output_payload(&ctr);
    let expected = FunctionCallOutputPayload {
        content: serde_json::to_string(&value).unwrap(),
        success: Some(true),
    };

    assert_eq!(expected, got);
    assert_eq!(got.content, "{\"ok\":true,\"value\":42}");
}

#[test]
fn falls_back_to_content_when_structured_is_null() {
    let ctr = CallToolOutcome {
        content: blocks(&["hello", "world"]),
        is_error: None,
        structured_content: structured(&serde_json::Value::Null),
    };

    let got = convert_call_tool_result_to_function_call_output_payload(&ctr);
    let expected = FunctionCallOutputPayload {
        content: blocks(&["hello", "world"]).unwrap(),
        success: Some(true),
    };

    assert_eq!(expected, got);
}

#[test]
fn success_flag_reflects_is_error_true() {
    let value = object(vec![("message", serde_json::Value::String("bad".to_string()))]);
    let ctr = CallToolOutcome {
        content: blocks(&["unused"]),
        is_error: Some(true),
        structured_content: structured(&value),
    };

    let got = convert_call_tool_result_to_function_call_output_payload(&ctr);
    let expected = FunctionCallOutputPayload {
        content: serde_json::to_string(&value).unwrap(),
        success: Some(false),
    };

    assert_eq!(expected, got);
}

#[test]
fn success_flag_true_with_no_error_and_content_used() {
    let ctr = CallToolOutcome {
        content: blocks(&["alpha"]),
        is_error: Some(false),
        structured_content: None,
    };

    let got = convert_call_tool_result_to_function_call_output_payload(&ctr);
    let expected = FunctionCallOutputPayload {
        content: blocks(&["alpha"]).unwrap(),
        success: Some(true),
    };

    assert_eq!(expected, got);
}

#[test]
fn content_that_cannot_be_written_is_a_failure() {
    let ctr = CallToolOutcome {
        content: Err("cannot serialize".to_string()),
        is_error: None,
        structured_content: None,
    };
    let got = convert_call_tool_result_to_function_call_output_payload(&ctr);
    assert_eq!(
        got,
        FunctionCallOutputPayload { content: "cannot serialize".to_string(), success: Some(false) }
    );
}

fn exec_output(aggregated: String, timed_out: bool) -> ExecToolCallOutput {
    ExecToolCallOutput {
        exit_code: 0,
        stdout: String::new(),
        stderr: String::new(),
        aggregated_output: aggregated,
        duration_ms: 1000,
        timed_out,
    }
}

#[test]
fn model_truncation_head_tail_by_lines() {
    let lines: Vec<String> = (1..=400).map(|i| format!("line{i}")).collect();
    let full = lines.join("\n");

    let exec = exec_output(full, false);

    let out = format_exec_output_str(&exec);

    let omitted = 400 - MODEL_FORMAT_MAX_LINES;
    let marker = format!("\n[... omitted {omitted} of 400 lines ...]\n\n");
    assert!(out.contains(&marker), "missing marker: {out}");

    let parts: Vec<&str> = out.split(&marker).collect();
    assert_eq!(parts.len(), 2, "expected one marker split");
    let head = parts[0];
    let tail = parts[1];

    let expected_head: String = (1..=MODEL_FORMAT_HEAD_LINES)
        .map(|i| format!("line{i}"))
        .collect::<Vec<_>>()
        .join("\n");
    assert!(head.starts_with(&expected_head), "head mismatch");

    let expected_tail: String = ((400 - MODEL_FORMAT_TAIL_LINES + 1)..=400)
        .map(|i| format!("line{i}"))
        .collect::<Vec<_>>()
        .join("\n");
    assert!(tail.ends_with(&expected_tail), "tail mismatch");
}

#[test]
fn model_truncation_respects_byte_budget() {
    let big_line = "x".repeat(100);
    let full = std::iter::repeat_n(big_line, 1000)
        .collect::<Vec<_>>()
        .join("\n");

    let exec = exec_output(full.clone(), false);

    let out = format_exec_output_str(&exec);
    assert!(out.len() <= MODEL_FORMAT_MAX_BYTES, "exceeds byte budget");
    assert!(out.contains("omitted"), "should contain elision marker");

    assert!(full.starts_with(out.chars().take(8).collect::<String>().as_str()));
    assert!(
        full.ends_with(
            out.chars()
                .rev()
                .take(8)
                .collect::<String>()
                .chars()
                .rev()
                .collect::<String>()
                .as_str()
        )
    );
    assert_eq!(out.matches("[... omitted").count(), 1);
    assert!(out.contains("\n[... omitted 744 of 1000 lines ...]\n\n"));
}

#[test]
fn includes_timed_out_message() {
    let exec = exec_output("Command output".to_string(), true);

    let out = format_exec_output_str(&exec);

    assert_eq!(
        out,
        "command timed out after 1000 milliseconds\nCommand output"
    );
}

#[test]
fn short_output_is_shown_whole() {
    let exec = exec_output("a\nb\n".to_string(), false);
    assert_eq!(format_exec_output_str(&exec), "a\nb\n");
    let exec = exec_output(String::new(), false);
    assert_eq!(format_exec_output_str(&exec), "");
}

#[test]
fn truncation_keeps_to_character_boundaries() {
    let full = "é".repeat(20000);
    let exec = exec_output(full, false);
    let out = format_exec_output_str(&exec);
    assert!(out.len() <= MODEL_FORMAT_MAX_BYTES);
    assert!(out.contains("[... omitted 0 of 1 lines ...]"));
    assert!(out.starts_with("é"));
    assert!(out.ends_with("[... omitted 0 of 1 lines ...]\n\n"));
    let head = out.split('\n').next().unwrap();
    assert_eq!(head.len(), 5120);
    assert!(head.chars().all(|c| c == 'é'));
}

#[test]
fn missing_outputs_are_made_up_in_front() {
    let call = ResponseItem::FunctionCall {
        id: None,
        name: "shell".to_string(),
        arguments: "{}".to_string(),
        call_id: "c1".to_string(),
    };
    let answered = ResponseItem::FunctionCall {
        id: None,
        name: "shell".to_string(),
        arguments: "{}".to_string(),
        call_id: "c2".to_string(),
    };
    let answer = ResponseItem::FunctionCallOutput {
        call_id: "c2".to_string(),
        output: FunctionCallOutputPayload { content: "ok".to_string(), success: Some(true) },
    };
    let local = ResponseItem::LocalShellCall {
        id: None,
        call_id: Some("c3".to_string()),
        status: "completed".to_string(),
        action: LocalShellAction {
            command: vec!["ls".to_string()],
            working_directory: None,
            timeout_ms: None,
        },
    };
    let custom = ResponseItem::CustomToolCall {
        id: None,
        status: None,
        call_id: "c4".to_string(),
        name: "apply_patch".to_string(),
        input: "p".to_string(),
    };
    let items = vec![call.clone(), answered.clone(), answer.clone(), local.clone(), custom.clone()];
    let aborted = |id: &str| ResponseItem::CustomToolCallOutput {
        call_id: id.to_string(),
        output: "aborted".to_string(),
    };
    assert_eq!(
        synthesize_missing_outputs(&items),
        vec![aborted("c1"), aborted("c3"), aborted("c4")]
    );
    let completed = complete_turn_input(items.clone());
    assert_eq!(completed.len(), 8);
    assert_eq!(&completed[..3], &[aborted("c1"), aborted("c3"), aborted("c4")]);
    assert_eq!(&completed[3..], &items[..]);
    assert!(synthesize_missing_outputs(&completed).is_empty());
}
