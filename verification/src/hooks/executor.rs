//! Evaluates lifecycle events and says what to record of them.

use crate::digest::{checksum, checksum_of};
use crate::hooks::decision::{allow_decision, HookDecision, HookDecisionView, HookOutcome};
use crate::hooks::events::HookEvent;
use crate::hooks::execution_record::{HookExecutionRecord, HookExecutionRecordView};
use crate::hooks::log_writer::HookLogWriter;
use crate::hooks::registry::{HookRegistry, HookRegistryView};
use crate::hooks::scope::{HookScope, HookScopeView};
use crate::search::{contains_text, has_text};
use vstd::prelude::*;

verus! {

#[derive(Debug, PartialEq, Eq)]
pub enum HookExecutionError {
    NotImplemented,
}

impl HookExecutionError {
    pub fn message(&self) -> (r: String)
        ensures
            r@ == "hook executor not implemented"@,
    {
        String::from_str("hook executor not implemented")
    }
}

/// What is known of a tool before it runs.
#[derive(Debug, PartialEq, Eq)]
pub struct PreToolUsePayload {
    pub tool_name: String,
    pub command: String,
}

impl Clone for PreToolUsePayload {
    fn clone(&self) -> (r: Self)
        ensures
            r.tool_name@ == self.tool_name@,
            r.command@ == self.command@,
    {
        PreToolUsePayload { tool_name: self.tool_name.clone(), command: self.command.clone() }
    }
}

/// The command that the built-in guard refuses.
pub open spec fn guarded_text() -> Seq<char> {
    "rm -rf /var/www"@
}

/// The decision of the built-in guard: a command that holds the
/// guarded text is denied with exit code 2; every other command is
/// allowed.
pub open spec fn guard_decision(command: Seq<char>) -> HookDecisionView {
    if contains_text(command, guarded_text()) {
        HookDecisionView {
            decision: HookOutcome::Deny,
            message: Some("Blocking destructive command"@),
            system_message: None,
            stop_reason: Some("dangerous_command"@),
            extra: None,
            exit_code: 2,
        }
    } else {
        allow_decision()
    }
}

/// The record of a decision, but for its id and its time.
pub open spec fn decision_record(
    r: HookExecutionRecordView,
    event: HookEvent,
    scope: HookScopeView,
    hook_id: Seq<char>,
    trigger: Seq<char>,
    decision: HookDecisionView,
) -> bool {
    r == (HookExecutionRecordView {
        id: r.id,
        timestamp: r.timestamp,
        event,
        scope,
        hook_id,
        decision,
        duration_ms: 0,
        stdout: Seq::empty(),
        stderr: Seq::empty(),
        error: None,
        precedence_rank: 0,
        payload_hash: checksum_of(trigger),
        trigger_id: trigger,
    })
}

#[derive(Debug)]
pub struct HookExecutor {
    pub registry: HookRegistry,
    pub log_writer: Option<HookLogWriter>,
    pub default_scope: HookScope,
}

impl Default for HookExecutor {
    /// An executor without hooks and without a log.
    fn default() -> (r: Self)
        ensures
            r.log_writer is None,
            r.default_scope.deep_view() == (HookScopeView::LocalUser { codex_home: Seq::empty() }),
            r.registry.deep_view() == (HookRegistryView {
                events: crate::hooks::registry::empty_buckets(),
                last_loaded: None,
                source_layers: Seq::empty(),
            }),
    {
        HookExecutor {
            registry: HookRegistry::new(),
            log_writer: None,
            default_scope: HookScope::LocalUser { codex_home: String::new() },
        }
    }
}

impl Clone for HookExecutor {
    fn clone(&self) -> (r: Self)
        ensures
            r.registry.deep_view() == self.registry.deep_view(),
            r.log_writer is Some == self.log_writer is Some,
            r.default_scope.deep_view() == self.default_scope.deep_view(),
    {
        HookExecutor {
            registry: self.registry.clone(),
            log_writer: match &self.log_writer {
                Some(w) => Some(w.clone()),
                None => None,
            },
            default_scope: self.default_scope.clone(),
        }
    }
}

impl HookExecutor {
    /// An executor over `registry`, without a log.
    pub fn with_registry(registry: HookRegistry) -> (r: Self)
        ensures
            r.registry == registry,
            r.log_writer is None,
            r.default_scope.deep_view() == (HookScopeView::LocalUser { codex_home: Seq::empty() }),
    {
        HookExecutor {
            registry,
            log_writer: None,
            default_scope: HookScope::LocalUser { codex_home: String::new() },
        }
    }

    /// An executor over `registry` that records what it decides, under
    /// `default_scope`.
    pub fn with_runtime(registry: HookRegistry, log_writer: HookLogWriter, default_scope: HookScope) -> (r:
        Self)
        ensures
            r.registry == registry,
            r.log_writer == Some(log_writer),
            r.default_scope == default_scope,
    {
        HookExecutor { registry, log_writer: Some(log_writer), default_scope }
    }

    /// A copy of the registry.
    pub fn registry(&self) -> (r: HookRegistry)
        ensures
            r.deep_view() == self.registry.deep_view(),
    {
        self.registry.clone()
    }

    /// Whether no hook is registered.
    pub fn is_empty(&self) -> (r: bool)
        ensures
            r == (forall|e: int|
                0 <= e < crate::hooks::events::EVENT_COUNT ==> (
                #[trigger] self.registry.deep_view().events[e]).len() == 0),
    {
        self.registry.is_empty()
    }

    /// Decides whether a tool may run: the decision of the built-in
    /// guard on the command.
    pub fn evaluate_pre_tool_use(&self, payload: &PreToolUsePayload) -> (r: Result<
        HookDecision,
        HookExecutionError,
    >)
        ensures
            r is Ok,
            r->Ok_0.deep_view() == guard_decision(payload.command@),
    {
        if has_text(payload.command.as_str(), "rm -rf /var/www") {
            Ok(
                HookDecision {
                    decision: HookOutcome::Deny,
                    message: Some(String::from_str("Blocking destructive command")),
                    system_message: None,
                    stop_reason: Some(String::from_str("dangerous_command")),
                    extra: None,
                    exit_code: 2,
                },
            )
        } else {
            Ok(HookDecision::default())
        }
    }

    /// The record to append to the log for a decision; none where the
    /// executor has no log.
    pub fn log_decision(&self, event: HookEvent, hook_id: &str, trigger: &str, decision: &HookDecision) -> (r:
        Option<HookExecutionRecord>)
        ensures
            r is Some == self.log_writer is Some,
            r is Some ==> decision_record(
                r->0.deep_view(),
                event,
                self.default_scope.deep_view(),
                hook_id@,
                trigger@,
                decision.deep_view(),
            ),
    {
        if self.log_writer.is_none() {
            return None;
        }
        let mut record = HookExecutionRecord::new(event, self.default_scope.clone(), hook_id);
        record.decision = decision.clone();
        record.payload_hash = checksum(trigger);
        record.trigger_id = String::from_str(trigger);
        Some(record)
    }

    /// The record of the decision before a tool runs.
    pub fn pre_tool_record(&self, payload: &PreToolUsePayload, decision: &HookDecision) -> (r: Option<
        HookExecutionRecord,
    >)
        ensures
            r is Some == self.log_writer is Some,
            r is Some ==> decision_record(
                r->0.deep_view(),
                HookEvent::PreToolUse,
                self.default_scope.deep_view(),
                "codex.pretool.guard"@,
                payload.command@,
                decision.deep_view(),
            ),
    {
        self.log_decision(
            HookEvent::PreToolUse,
            "codex.pretool.guard",
            payload.command.as_str(),
            decision,
        )
    }

    /// The record of a session's start.
    pub fn notify_session_start(&self) -> (r: Option<HookExecutionRecord>)
        ensures
            r is Some == self.log_writer is Some,
            r is Some ==> decision_record(
                r->0.deep_view(),
                HookEvent::SessionStart,
                self.default_scope.deep_view(),
                "codex.session.start"@,
                "session"@,
                allow_decision(),
            ),
    {
        self.log_decision(
            HookEvent::SessionStart,
            "codex.session.start",
            "session",
            &HookDecision::default(),
        )
    }

    /// The record of a session's end.
    pub fn notify_session_end(&self) -> (r: Option<HookExecutionRecord>)
        ensures
            r is Some == self.log_writer is Some,
            r is Some ==> decision_record(
                r->0.deep_view(),
                HookEvent::SessionEnd,
                self.default_scope.deep_view(),
                "codex.session.end"@,
                "session"@,
                allow_decision(),
            ),
    {
        self.log_decision(
            HookEvent::SessionEnd,
            "codex.session.end",
            "session",
            &HookDecision::default(),
        )
    }

    /// The record of a prompt that the user submitted.
    pub fn notify_user_prompt(&self) -> (r: Option<HookExecutionRecord>)
        ensures
            r is Some == self.log_writer is Some,
            r is Some ==> decision_record(
                r->0.deep_view(),
                HookEvent::UserPromptSubmit,
                self.default_scope.deep_view(),
                "codex.user_prompt.submit"@,
                "user_prompt"@,
                allow_decision(),
            ),
    {
        self.log_decision(
            HookEvent::UserPromptSubmit,
            "codex.user_prompt.submit",
            "user_prompt",
            &HookDecision::default(),
        )
    }

    /// The record of a tool's result: an allowing decision that carries
    /// the tool's exit code.
    pub fn record_post_tool_use(&self, command: &str, exit_code: i32) -> (r: Option<
        HookExecutionRecord,
    >)
        ensures
            r is Some == self.log_writer is Some,
            r is Some ==> decision_record(
                r->0.deep_view(),
                HookEvent::PostToolUse,
                self.default_scope.deep_view(),
                "codex.posttool.audit"@,
                command@,
                HookDecisionView { exit_code, ..allow_decision() },
            ),
    {
        let mut decision = HookDecision::default();
        decision.exit_code = exit_code;
        self.log_decision(HookEvent::PostToolUse, "codex.posttool.audit", command, &decision)
    }
}

} // verus!
