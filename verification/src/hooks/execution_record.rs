//! The audit record of one hook invocation.

use crate::clock::{now, Timestamp};
use crate::copying::{copy_opt_string, copy_strings};
use crate::hooks::decision::{allow_decision, HookDecision, HookDecisionView};
use crate::hooks::events::HookEvent;
use crate::hooks::scope::{HookScope, HookScopeView};
use crate::ident::{copy_id, fresh_id};
use vstd::prelude::*;

verus! {

#[derive(Debug)]
pub struct HookExecutionRecord {
    pub id: uuid::Uuid,
    pub timestamp: Timestamp,
    pub event: HookEvent,
    pub scope: HookScope,
    pub hook_id: String,
    pub decision: HookDecision,
    pub duration_ms: u64,
    pub stdout: Vec<String>,
    pub stderr: Vec<String>,
    pub error: Option<String>,
    pub precedence_rank: u8,
    pub payload_hash: String,
    pub trigger_id: String,
}

pub struct HookExecutionRecordView {
    pub id: uuid::Uuid,
    pub timestamp: Timestamp,
    pub event: HookEvent,
    pub scope: HookScopeView,
    pub hook_id: Seq<char>,
    pub decision: HookDecisionView,
    pub duration_ms: u64,
    pub stdout: Seq<Seq<char>>,
    pub stderr: Seq<Seq<char>>,
    pub error: Option<Seq<char>>,
    pub precedence_rank: u8,
    pub payload_hash: Seq<char>,
    pub trigger_id: Seq<char>,
}

impl DeepView for HookExecutionRecord {
    type V = HookExecutionRecordView;

    open spec fn deep_view(&self) -> HookExecutionRecordView {
        HookExecutionRecordView {
            id: self.id,
            timestamp: self.timestamp,
            event: self.event,
            scope: self.scope.deep_view(),
            hook_id: self.hook_id@,
            decision: self.decision.deep_view(),
            duration_ms: self.duration_ms,
            stdout: self.stdout.deep_view(),
            stderr: self.stderr.deep_view(),
            error: self.error.deep_view(),
            precedence_rank: self.precedence_rank,
            payload_hash: self.payload_hash@,
            trigger_id: self.trigger_id@,
        }
    }
}

impl Clone for HookExecutionRecord {
    fn clone(&self) -> (r: Self)
        ensures
            r.deep_view() == self.deep_view(),
    {
        HookExecutionRecord {
            id: copy_id(&self.id),
            timestamp: self.timestamp,
            event: self.event,
            scope: self.scope.clone(),
            hook_id: self.hook_id.clone(),
            decision: self.decision.clone(),
            duration_ms: self.duration_ms,
            stdout: copy_strings(&self.stdout),
            stderr: copy_strings(&self.stderr),
            error: copy_opt_string(&self.error),
            precedence_rank: self.precedence_rank,
            payload_hash: self.payload_hash.clone(),
            trigger_id: self.trigger_id.clone(),
        }
    }
}

impl HookExecutionRecord {
    /// A record of an invocation that allowed, took no time and printed
    /// nothing, under a fresh id and the present instant.
    pub fn new(event: HookEvent, scope: HookScope, hook_id: &str) -> (r: Self)
        ensures
            r.deep_view() == (HookExecutionRecordView {
                id: r.id,
                timestamp: r.timestamp,
                event,
                scope: scope.deep_view(),
                hook_id: hook_id@,
                decision: allow_decision(),
                duration_ms: 0,
                stdout: Seq::empty(),
                stderr: Seq::empty(),
                error: None,
                precedence_rank: 0,
                payload_hash: Seq::empty(),
                trigger_id: Seq::empty(),
            }),
    {
        let stdout: Vec<String> = Vec::new();
        let stderr: Vec<String> = Vec::new();
        proof {
            assert(stdout.deep_view() =~= Seq::<Seq<char>>::empty());
            assert(stderr.deep_view() =~= Seq::<Seq<char>>::empty());
        }
        HookExecutionRecord {
            id: fresh_id(),
            timestamp: now(),
            event,
            scope,
            hook_id: String::from_str(hook_id),
            decision: HookDecision::default(),
            duration_ms: 0,
            stdout,
            stderr,
            error: None,
            precedence_rank: 0,
            payload_hash: String::new(),
            trigger_id: String::new(),
        }
    }
}

} // verus!
