//! Plan Mode as clients see it.

use crate::clock::{rfc3339_text, to_rfc3339, Timestamp};
use crate::copying::{copy_opt_string, copy_strings};
use crate::plan_mode::artifact::{PlanArtifact, PlanArtifactMetadataView, PlanArtifactView};
use crate::plan_mode::entry::{PlanEntry, PlanEntryType, PlanEntryView};
use crate::protocol::AskForApproval;
use vstd::prelude::*;

verus! {

#[derive(Clone, Copy, Debug, PartialEq, Eq, Structural)]
pub enum PlanEntryTypePayload {
    Command,
    FileChange,
    Research,
    Decision,
}

#[derive(Debug, PartialEq, Eq)]
pub struct PlanEntryPayload {
    pub sequence: u16,
    pub entry_type: PlanEntryTypePayload,
    pub summary: String,
    pub details: Option<String>,
    pub created_at: String,
}

pub struct PlanEntryPayloadView {
    pub sequence: u16,
    pub entry_type: PlanEntryTypePayload,
    pub summary: Seq<char>,
    pub details: Option<Seq<char>>,
    pub created_at: Seq<char>,
}

impl DeepView for PlanEntryPayload {
    type V = PlanEntryPayloadView;

    open spec fn deep_view(&self) -> PlanEntryPayloadView {
        PlanEntryPayloadView {
            sequence: self.sequence,
            entry_type: self.entry_type,
            summary: self.summary@,
            details: self.details.deep_view(),
            created_at: self.created_at@,
        }
    }
}

pub open spec fn type_payload(t: PlanEntryType) -> PlanEntryTypePayload {
    match t {
        PlanEntryType::Command => PlanEntryTypePayload::Command,
        PlanEntryType::FileChange => PlanEntryTypePayload::FileChange,
        PlanEntryType::Research => PlanEntryTypePayload::Research,
        PlanEntryType::Decision => PlanEntryTypePayload::Decision,
    }
}

/// The RFC 3339 text of an instant, or nothing where it has none.
pub open spec fn instant_text(t: Timestamp) -> Seq<char> {
    match rfc3339_text(t.millis as int) {
        Some(s) => s,
        None => Seq::empty(),
    }
}

pub open spec fn entry_payload(e: PlanEntryView) -> PlanEntryPayloadView {
    PlanEntryPayloadView {
        sequence: e.sequence,
        entry_type: type_payload(e.entry_type),
        summary: e.summary,
        details: e.details,
        created_at: instant_text(e.created_at),
    }
}

fn text_of_instant(t: Timestamp) -> (r: String)
    ensures
        r@ == instant_text(t),
{
    match to_rfc3339(t) {
        Some(s) => s,
        None => String::new(),
    }
}

impl PlanEntryPayload {
    pub fn from_entry(entry: &PlanEntry) -> (r: Self)
        ensures
            r.deep_view() == entry_payload(entry.deep_view()),
    {
        PlanEntryPayload {
            sequence: entry.sequence,
            entry_type: match entry.entry_type {
                PlanEntryType::Command => PlanEntryTypePayload::Command,
                PlanEntryType::FileChange => PlanEntryTypePayload::FileChange,
                PlanEntryType::Research => PlanEntryTypePayload::Research,
                PlanEntryType::Decision => PlanEntryTypePayload::Decision,
            },
            summary: entry.summary.clone(),
            details: copy_opt_string(&entry.details),
            created_at: text_of_instant(entry.created_at),
        }
    }
}

#[derive(Debug, PartialEq, Eq)]
pub struct PlanArtifactMetadataPayload {
    pub template: Option<String>,
    pub model: Option<String>,
    pub updated_at: Option<String>,
}

pub struct PlanArtifactMetadataPayloadView {
    pub template: Option<Seq<char>>,
    pub model: Option<Seq<char>>,
    pub updated_at: Option<Seq<char>>,
}

impl DeepView for PlanArtifactMetadataPayload {
    type V = PlanArtifactMetadataPayloadView;

    open spec fn deep_view(&self) -> PlanArtifactMetadataPayloadView {
        PlanArtifactMetadataPayloadView {
            template: self.template.deep_view(),
            model: self.model.deep_view(),
            updated_at: self.updated_at.deep_view(),
        }
    }
}

#[derive(Debug, PartialEq, Eq)]
pub struct PlanArtifactPayload {
    pub title: String,
    pub objectives: Vec<String>,
    pub constraints: Vec<String>,
    pub assumptions: Vec<String>,
    pub approach: Vec<String>,
    pub steps: Vec<PlanEntryPayload>,
    pub affected_areas: Vec<String>,
    pub risks: Vec<String>,
    pub next_actions: Vec<String>,
    pub tests: Vec<String>,
    pub alternatives: Vec<String>,
    pub rollback: Vec<String>,
    pub success_criteria: Vec<String>,
    pub metadata: Option<PlanArtifactMetadataPayload>,
}

pub struct PlanArtifactPayloadView {
    pub title: Seq<char>,
    pub objectives: Seq<Seq<char>>,
    pub constraints: Seq<Seq<char>>,
    pub assumptions: Seq<Seq<char>>,
    pub approach: Seq<Seq<char>>,
    pub steps: Seq<PlanEntryPayloadView>,
    pub affected_areas: Seq<Seq<char>>,
    pub risks: Seq<Seq<char>>,
    pub next_actions: Seq<Seq<char>>,
    pub tests: Seq<Seq<char>>,
    pub alternatives: Seq<Seq<char>>,
    pub rollback: Seq<Seq<char>>,
    pub success_criteria: Seq<Seq<char>>,
    pub metadata: Option<PlanArtifactMetadataPayloadView>,
}

impl DeepView for PlanArtifactPayload {
    type V = PlanArtifactPayloadView;

    open spec fn deep_view(&self) -> PlanArtifactPayloadView {
        PlanArtifactPayloadView {
            title: self.title@,
            objectives: self.objectives.deep_view(),
            constraints: self.constraints.deep_view(),
            assumptions: self.assumptions.deep_view(),
            approach: self.approach.deep_view(),
            steps: self.steps.deep_view(),
            affected_areas: self.affected_areas.deep_view(),
            risks: self.risks.deep_view(),
            next_actions: self.next_actions.deep_view(),
            tests: self.tests.deep_view(),
            alternatives: self.alternatives.deep_view(),
            rollback: self.rollback.deep_view(),
            success_criteria: self.success_criteria.deep_view(),
            metadata: self.metadata.deep_view(),
        }
    }
}

/// The metadata as clients see it: nothing where nothing is set.
pub open spec fn metadata_payload(m: PlanArtifactMetadataView) -> Option<
    PlanArtifactMetadataPayloadView,
> {
    if m.template is None && m.model is None && m.updated_at is None {
        None
    } else {
        Some(
            PlanArtifactMetadataPayloadView {
                template: m.template,
                model: m.model,
                updated_at: match m.updated_at {
                    Some(t) => Some(instant_text(t)),
                    None => None,
                },
            },
        )
    }
}

pub open spec fn artifact_payload(a: PlanArtifactView) -> PlanArtifactPayloadView {
    PlanArtifactPayloadView {
        title: a.title,
        objectives: a.objectives,
        constraints: a.constraints,
        assumptions: a.assumptions,
        approach: a.approach,
        steps: Seq::new(a.steps.len(), |i: int| entry_payload(a.steps[i])),
        affected_areas: a.affected_areas,
        risks: a.risks,
        next_actions: a.next_actions,
        tests: a.tests,
        alternatives: a.alternatives,
        rollback: a.rollback,
        success_criteria: a.success_criteria,
        metadata: metadata_payload(a.metadata),
    }
}

impl PlanArtifactPayload {
    pub fn from_artifact(artifact: &PlanArtifact) -> (r: Self)
        ensures
            r.deep_view() == artifact_payload(artifact.deep_view()),
    {
        let metadata = if artifact.metadata.template.is_none() && artifact.metadata.model.is_none()
            && artifact.metadata.updated_at.is_none() {
            None
        } else {
            Some(
                PlanArtifactMetadataPayload {
                    template: copy_opt_string(&artifact.metadata.template),
                    model: copy_opt_string(&artifact.metadata.model),
                    updated_at: match artifact.metadata.updated_at {
                        Some(t) => Some(text_of_instant(t)),
                        None => None,
                    },
                },
            )
        };
        let mut steps: Vec<PlanEntryPayload> = Vec::new();
        let mut i: usize = 0;
        while i < artifact.steps.len()
            invariant
                i <= artifact.steps.len(),
                steps@.len() == i,
                forall|j: int|
                    0 <= j < i ==> (#[trigger] steps@[j]).deep_view() == entry_payload(
                        artifact.steps@[j].deep_view(),
                    ),
            decreases artifact.steps.len() - i,
        {
            steps.push(PlanEntryPayload::from_entry(&artifact.steps[i]));
            i += 1;
        }
        proof {
            assert(steps.deep_view() =~= artifact_payload(artifact.deep_view()).steps);
        }
        PlanArtifactPayload {
            title: artifact.title.clone(),
            objectives: copy_strings(&artifact.objectives),
            constraints: copy_strings(&artifact.constraints),
            assumptions: copy_strings(&artifact.assumptions),
            approach: copy_strings(&artifact.approach),
            steps,
            affected_areas: copy_strings(&artifact.affected_areas),
            risks: copy_strings(&artifact.risks),
            next_actions: copy_strings(&artifact.next_actions),
            tests: copy_strings(&artifact.tests),
            alternatives: copy_strings(&artifact.alternatives),
            rollback: copy_strings(&artifact.rollback),
            success_criteria: copy_strings(&artifact.success_criteria),
            metadata,
        }
    }
}

#[derive(Debug)]
pub struct PlanModeSessionPayload {
    pub session_id: uuid::Uuid,
    pub entered_from: AskForApproval,
    pub allowed_tools: Vec<String>,
    pub plan_artifact: PlanArtifactPayload,
}

pub struct PlanModeSessionPayloadView {
    pub session_id: uuid::Uuid,
    pub entered_from: AskForApproval,
    pub allowed_tools: Seq<Seq<char>>,
    pub plan_artifact: PlanArtifactPayloadView,
}

impl DeepView for PlanModeSessionPayload {
    type V = PlanModeSessionPayloadView;

    open spec fn deep_view(&self) -> PlanModeSessionPayloadView {
        PlanModeSessionPayloadView {
            session_id: self.session_id,
            entered_from: self.entered_from,
            allowed_tools: self.allowed_tools.deep_view(),
            plan_artifact: self.plan_artifact.deep_view(),
        }
    }
}

#[derive(Debug)]
pub struct PlanModeActivatedEvent {
    pub session: PlanModeSessionPayload,
}

#[derive(Debug)]
pub struct PlanModeUpdatedEvent {
    pub session: PlanModeSessionPayload,
}

#[derive(Clone, Copy, Debug, PartialEq, Eq, Structural)]
pub struct PlanModeExitedEvent {
    pub previous_mode: AskForApproval,
}

#[derive(Clone, Copy, Debug, PartialEq, Eq, Structural)]
pub struct PlanModeAppliedEvent {
    pub target_mode: AskForApproval,
    pub plan_entries: usize,
}

} // verus!
