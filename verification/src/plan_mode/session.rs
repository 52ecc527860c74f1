//! A session that is in Plan Mode.

use crate::clock::{now, Timestamp};
use crate::copying::{copy_strings, holds_text};
use crate::ident::copy_id;
use crate::plan_mode::allow_list::{
    allow_list_of, any_tool_rule, shell_verdict, PlanModeAllowList, PlanModeAllowListView,
};
use crate::plan_mode::artifact::{
    empty_artifact, next_sequence_of, PlanArtifact, PlanArtifactMetadata, PlanArtifactView,
};
use crate::plan_mode::capability::{ToolCapability, ToolMode};
use crate::plan_mode::config::PlanModeConfig;
use crate::plan_mode::entry::{PlanEntry, PlanEntryType, PlanEntryView};
use crate::plan_mode::payload::{
    artifact_payload, PlanArtifactPayload, PlanModeSessionPayload, PlanModeSessionPayloadView,
};
use crate::plan_mode::telemetry::{PlanModeEvent, PlanTelemetry};
use crate::protocol::AskForApproval;
use vstd::prelude::*;

verus! {

#[derive(Clone, Copy, Debug, PartialEq, Eq, Structural)]
pub enum PlanModeState {
    Active,
    Applying,
    Exited,
}

#[derive(Debug)]
pub struct PlanModeSession {
    pub session_id: uuid::Uuid,
    pub entered_from: AskForApproval,
    pub state: PlanModeState,
    pub allowed_tools: Vec<String>,
    pub plan_artifact: PlanArtifact,
    pub entered_at: Timestamp,
    pub pending_exit: Option<AskForApproval>,
    pub allow_list: PlanModeAllowList,
    pub fallback_tool_ids: Vec<String>,
}

pub struct PlanModeSessionView {
    pub session_id: uuid::Uuid,
    pub entered_from: AskForApproval,
    pub state: PlanModeState,
    pub allowed_tools: Seq<Seq<char>>,
    pub plan_artifact: PlanArtifactView,
    pub entered_at: Timestamp,
    pub pending_exit: Option<AskForApproval>,
    pub allow_list: PlanModeAllowListView,
    pub fallback_tool_ids: Seq<Seq<char>>,
}

impl DeepView for PlanModeSession {
    type V = PlanModeSessionView;

    open spec fn deep_view(&self) -> PlanModeSessionView {
        PlanModeSessionView {
            session_id: self.session_id,
            entered_from: self.entered_from,
            state: self.state,
            allowed_tools: self.allowed_tools.deep_view(),
            plan_artifact: self.plan_artifact.deep_view(),
            entered_at: self.entered_at,
            pending_exit: self.pending_exit,
            allow_list: self.allow_list.deep_view(),
            fallback_tool_ids: self.fallback_tool_ids.deep_view(),
        }
    }
}

impl Clone for PlanModeSession {
    fn clone(&self) -> (r: Self)
        ensures
            r.deep_view() == self.deep_view(),
    {
        PlanModeSession {
            session_id: copy_id(&self.session_id),
            entered_from: self.entered_from,
            state: self.state,
            allowed_tools: copy_strings(&self.allowed_tools),
            plan_artifact: self.plan_artifact.clone(),
            entered_at: self.entered_at,
            pending_exit: self.pending_exit,
            allow_list: self.allow_list.clone(),
            fallback_tool_ids: copy_strings(&self.fallback_tool_ids),
        }
    }
}

/// A capability is a fallback tool where it is read-only and either
/// needs no network or, with the network enabled, is matched by a tool
/// rule.
pub open spec fn is_fallback(
    capability: ToolCapability,
    allow: PlanModeAllowListView,
    network_enabled: bool,
) -> bool {
    capability.mode == ToolMode::ReadOnly && (!capability.requires_network || (network_enabled
        && allow.tool_rules.len() > 0 && any_tool_rule(allow.tool_rules, capability.id@)))
}

/// The ids of the fallback tools among the first `n` capabilities.
pub open spec fn fallback_ids(
    capabilities: Seq<ToolCapability>,
    allow: PlanModeAllowListView,
    network_enabled: bool,
    n: int,
) -> Seq<Seq<char>>
    decreases n,
{
    if n <= 0 {
        Seq::empty()
    } else if is_fallback(capabilities[n - 1], allow, network_enabled) {
        fallback_ids(capabilities, allow, network_enabled, n - 1).push(capabilities[n - 1].id@)
    } else {
        fallback_ids(capabilities, allow, network_enabled, n - 1)
    }
}

/// The tools shown as allowed: the entries of the allow-list and, where
/// it has no tool rules, the fallback tools.
pub open spec fn shown_tools(allow: PlanModeAllowListView, fallback: Seq<Seq<char>>) -> Seq<
    Seq<char>,
> {
    if allow.tool_rules.len() > 0 {
        allow.raw_entries
    } else {
        allow.raw_entries + fallback
    }
}

/// Whether a tool may run: by the tool rules where there are any, else
/// by the fallback tools.
pub open spec fn tool_allowed(s: PlanModeSessionView, tool_id: Seq<char>) -> bool {
    if s.allow_list.tool_rules.len() > 0 {
        any_tool_rule(s.allow_list.tool_rules, tool_id)
    } else {
        s.fallback_tool_ids.contains(tool_id)
    }
}

/// Whether a shell command may run while Plan Mode is on: it is not
/// empty, and some shell rule of the allow-list matches the command
/// as written or, where a shell wraps it, the wrapped command.
pub open spec fn shell_allowed(session: PlanModeSessionView, command: Seq<Seq<char>>) -> bool {
    shell_verdict(
        session.allow_list.shell_rules,
        command,
        crate::plan_mode::shell::names_of(command),
    )
}

/// What a session holds that has just entered Plan Mode at the
/// instant given: it is active, its plan is empty, and its allow-list
/// is the one that the configured entries give; the tools that it
/// shows are those of the allow-list and, of the capabilities, those
/// that only read.
pub open spec fn fresh_session(
    session_id: uuid::Uuid,
    entered_from: AskForApproval,
    capabilities: Seq<ToolCapability>,
    entries: Seq<Seq<char>>,
    network_enabled: bool,
    entered_at: Timestamp,
) -> PlanModeSessionView {
    let allow = allow_list_of(entries);
    let fallback = fallback_ids(capabilities, allow, network_enabled, capabilities.len() as int);
    PlanModeSessionView {
        session_id,
        entered_from,
        state: PlanModeState::Active,
        allowed_tools: shown_tools(allow, fallback),
        plan_artifact: empty_artifact(),
        entered_at,
        pending_exit: None,
        allow_list: allow,
        fallback_tool_ids: fallback,
    }
}

/// A session with one more step in its plan: an entry of the kind,
/// the summary and the details given, made at the instant given,
/// under the next sequence number.
pub open spec fn with_step(
    session: PlanModeSessionView,
    entry_type: PlanEntryType,
    summary: Seq<char>,
    details: Option<Seq<char>>,
    created_at: Timestamp,
) -> PlanModeSessionView {
    PlanModeSessionView {
        plan_artifact: PlanArtifactView {
            steps: session.plan_artifact.steps.push(
                PlanEntryView {
                    sequence: next_sequence_of(session.plan_artifact.steps),
                    entry_type,
                    summary,
                    details,
                    created_at,
                },
            ),
            ..session.plan_artifact
        },
        ..session
    }
}

/// A session as clients see it.
pub open spec fn payload_of(session: PlanModeSessionView) -> PlanModeSessionPayloadView {
    PlanModeSessionPayloadView {
        session_id: session.session_id,
        entered_from: session.entered_from,
        allowed_tools: session.allowed_tools,
        plan_artifact: artifact_payload(session.plan_artifact),
    }
}

impl PlanModeSession {
    /// A session that has just entered Plan Mode: active, with an empty
    /// plan, the allow-list that the configuration gives, and the
    /// present instant as its time of entry.
    pub fn new(
        session_id: uuid::Uuid,
        entered_from: AskForApproval,
        tool_capabilities: Vec<ToolCapability>,
        config: &PlanModeConfig,
        network_enabled: bool,
    ) -> (r: Self)
        ensures
            r.deep_view() == fresh_session(
                session_id,
                entered_from,
                tool_capabilities@,
                config.allowed_read_only_tools.deep_view(),
                network_enabled,
                r.entered_at,
            ),
    {
        let allow_list = config.allow_list();
        let ghost allow = allow_list.deep_view();
        let mut fallback_tool_ids: Vec<String> = Vec::new();
        let mut i: usize = 0;
        proof {
            assert(fallback_tool_ids.deep_view() =~= fallback_ids(
                tool_capabilities@,
                allow,
                network_enabled,
                0,
            ));
        }
        while i < tool_capabilities.len()
            invariant
                i <= tool_capabilities.len(),
                allow == allow_list.deep_view(),
                fallback_tool_ids.deep_view() == fallback_ids(
                    tool_capabilities@,
                    allow,
                    network_enabled,
                    i as int,
                ),
            decreases tool_capabilities.len() - i,
        {
            let capability = &tool_capabilities[i];
            let ghost f0 = fallback_tool_ids.deep_view();
            let keep = matches!(capability.mode, ToolMode::ReadOnly) && (
            !capability.requires_network || (network_enabled && allow_list.has_tool_rules()
                && allow_list.matches_tool(capability.id.as_str())));
            if keep {
                fallback_tool_ids.push(capability.id.clone());
                proof {
                    assert(fallback_tool_ids.deep_view() =~= f0.push(capability.id@));
                }
            }
            i += 1;
        }
        let mut allowed_tools = copy_strings(allow_list.raw_entries());
        if !allow_list.has_tool_rules() {
            let mut more = copy_strings(&fallback_tool_ids);
            let ghost a0 = allowed_tools.deep_view();
            let ghost m0 = more.deep_view();
            allowed_tools.append(&mut more);
            proof {
                assert(allowed_tools.deep_view() =~= a0 + m0);
            }
        }
        PlanModeSession {
            session_id,
            entered_from,
            state: PlanModeState::Active,
            allowed_tools,
            plan_artifact: PlanArtifact::default(),
            entered_at: now(),
            pending_exit: None,
            allow_list,
            fallback_tool_ids,
        }
    }

    /// Records a proposed action in the plan instead of carrying it
    /// out, and reports that.
    pub fn record_refusal(
        &mut self,
        entry_type: PlanEntryType,
        summary: &str,
        details: Option<String>,
    ) -> (r: PlanTelemetry)
        ensures
            final(self).deep_view().plan_artifact.steps.len() == old(self).deep_view().plan_artifact.steps.len() + 1,
            final(self).deep_view() == with_step(
                old(self).deep_view(),
                entry_type,
                summary@,
                details.deep_view(),
                final(self).deep_view().plan_artifact.steps.last().created_at,
            ),
            r.event == PlanModeEvent::RefusalCaptured,
            r.previous_mode == old(self).entered_from,
            r.plan_entry_count == final(self).deep_view().plan_artifact.steps.len(),
    {
        let mut entry = PlanEntry::new(entry_type, summary);
        entry.details = details;
        self.plan_artifact.add_entry(entry);
        PlanTelemetry::new(
            PlanModeEvent::RefusalCaptured,
            self.entered_from,
            self.plan_artifact.entry_count(),
        )
    }

    pub fn set_artifact_metadata(&mut self, metadata: PlanArtifactMetadata)
        ensures
            final(self).deep_view() == (PlanModeSessionView {
                plan_artifact: PlanArtifactView {
                    metadata: metadata.deep_view(),
                    ..old(self).deep_view().plan_artifact
                },
                ..old(self).deep_view()
            }),
    {
        self.plan_artifact.metadata = metadata;
    }

    /// Begins applying the plan: the approval mode to switch to is
    /// remembered.
    pub fn begin_apply(&mut self, target_mode: Option<AskForApproval>)
        ensures
            final(self).deep_view() == (PlanModeSessionView {
                state: PlanModeState::Applying,
                pending_exit: target_mode,
                ..old(self).deep_view()
            }),
    {
        self.state = PlanModeState::Applying;
        self.pending_exit = target_mode;
    }

    /// Leaves Plan Mode.
    pub fn exit_plan_mode(&mut self)
        ensures
            final(self).deep_view() == (PlanModeSessionView {
                state: PlanModeState::Exited,
                pending_exit: None,
                ..old(self).deep_view()
            }),
    {
        self.state = PlanModeState::Exited;
        self.pending_exit = None;
    }

    pub fn is_active(&self) -> (r: bool)
        ensures
            r == (self.state == PlanModeState::Active),
    {
        matches!(self.state, PlanModeState::Active)
    }

    /// The tools shown as allowed.
    pub fn allowed_tool_ids(&self) -> (r: &Vec<String>)
        ensures
            r.deep_view() == self.deep_view().allowed_tools,
    {
        &self.allowed_tools
    }

    pub fn is_tool_allowed(&self, tool_id: &str) -> (r: bool)
        ensures
            r == tool_allowed(self.deep_view(), tool_id@),
    {
        if self.allow_list.has_tool_rules() {
            self.allow_list.matches_tool(tool_id)
        } else {
            holds_text(&self.fallback_tool_ids, tool_id)
        }
    }

    /// Whether the shell command may run.
    pub fn is_shell_allowed(&self, command: &Vec<String>) -> (r: bool)
        ensures
            r == shell_allowed(self.deep_view(), command.deep_view()),
    {
        self.allow_list.matches_shell_command(command)
    }

    /// The report of having entered Plan Mode.
    pub fn entered_telemetry(&self) -> (r: PlanTelemetry)
        ensures
            r.event == PlanModeEvent::Entered,
            r.previous_mode == self.entered_from,
            r.plan_entry_count == self.deep_view().plan_artifact.steps.len(),
    {
        PlanTelemetry::new(
            PlanModeEvent::Entered,
            self.entered_from,
            self.plan_artifact.entry_count(),
        )
    }

    /// The session as clients see it.
    pub fn to_payload(&self) -> (r: PlanModeSessionPayload)
        ensures
            r.deep_view() == payload_of(self.deep_view()),
    {
        PlanModeSessionPayload {
            session_id: copy_id(&self.session_id),
            entered_from: self.entered_from,
            allowed_tools: copy_strings(&self.allowed_tools),
            plan_artifact: PlanArtifactPayload::from_artifact(&self.plan_artifact),
        }
    }

    pub fn plan_artifact(&self) -> (r: &PlanArtifact)
        ensures
            r.deep_view() == self.deep_view().plan_artifact,
    {
        &self.plan_artifact
    }
}

} // verus!
