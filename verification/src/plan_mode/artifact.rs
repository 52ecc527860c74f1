//! The plan that Plan Mode builds up.

use crate::clock::Timestamp;
use crate::copying::{copy_opt_string, copy_strings};
use crate::lines::{join, joined, lines_of, split_lines, string_texts, texts};
use crate::numfmt::{decimal, decimal_chars};
use crate::plan_mode::entry::{PlanEntry, PlanEntryType, PlanEntryView};
use crate::text::{
    blank, chars_of, is_blank, push_all, push_str, string_of, trim, trim_bounds, trimmed,
};
use vstd::prelude::*;

verus! {

#[derive(Debug, PartialEq, Eq)]
pub struct PlanArtifactMetadata {
    pub template: Option<String>,
    pub model: Option<String>,
    pub updated_at: Option<Timestamp>,
}

pub struct PlanArtifactMetadataView {
    pub template: Option<Seq<char>>,
    pub model: Option<Seq<char>>,
    pub updated_at: Option<Timestamp>,
}

impl DeepView for PlanArtifactMetadata {
    type V = PlanArtifactMetadataView;

    open spec fn deep_view(&self) -> PlanArtifactMetadataView {
        PlanArtifactMetadataView {
            template: self.template.deep_view(),
            model: self.model.deep_view(),
            updated_at: self.updated_at,
        }
    }
}

impl Clone for PlanArtifactMetadata {
    fn clone(&self) -> (r: Self)
        ensures
            r.deep_view() == self.deep_view(),
    {
        PlanArtifactMetadata {
            template: copy_opt_string(&self.template),
            model: copy_opt_string(&self.model),
            updated_at: self.updated_at,
        }
    }
}

impl Default for PlanArtifactMetadata {
    fn default() -> (r: Self)
        ensures
            r.deep_view() == (PlanArtifactMetadataView {
                template: None,
                model: None,
                updated_at: None,
            }),
    {
        PlanArtifactMetadata { template: None, model: None, updated_at: None }
    }
}

#[derive(Debug, PartialEq, Eq)]
pub struct PlanArtifact {
    pub title: String,
    pub objectives: Vec<String>,
    pub constraints: Vec<String>,
    pub assumptions: Vec<String>,
    pub approach: Vec<String>,
    pub steps: Vec<PlanEntry>,
    pub affected_areas: Vec<String>,
    pub risks: Vec<String>,
    pub alternatives: Vec<String>,
    pub next_actions: Vec<String>,
    pub tests: Vec<String>,
    pub rollback: Vec<String>,
    pub success_criteria: Vec<String>,
    pub metadata: PlanArtifactMetadata,
}

pub struct PlanArtifactView {
    pub title: Seq<char>,
    pub objectives: Seq<Seq<char>>,
    pub constraints: Seq<Seq<char>>,
    pub assumptions: Seq<Seq<char>>,
    pub approach: Seq<Seq<char>>,
    pub steps: Seq<PlanEntryView>,
    pub affected_areas: Seq<Seq<char>>,
    pub risks: Seq<Seq<char>>,
    pub alternatives: Seq<Seq<char>>,
    pub next_actions: Seq<Seq<char>>,
    pub tests: Seq<Seq<char>>,
    pub rollback: Seq<Seq<char>>,
    pub success_criteria: Seq<Seq<char>>,
    pub metadata: PlanArtifactMetadataView,
}

impl DeepView for PlanArtifact {
    type V = PlanArtifactView;

    open spec fn deep_view(&self) -> PlanArtifactView {
        PlanArtifactView {
            title: self.title@,
            objectives: self.objectives.deep_view(),
            constraints: self.constraints.deep_view(),
            assumptions: self.assumptions.deep_view(),
            approach: self.approach.deep_view(),
            steps: self.steps.deep_view(),
            affected_areas: self.affected_areas.deep_view(),
            risks: self.risks.deep_view(),
            alternatives: self.alternatives.deep_view(),
            next_actions: self.next_actions.deep_view(),
            tests: self.tests.deep_view(),
            rollback: self.rollback.deep_view(),
            success_criteria: self.success_criteria.deep_view(),
            metadata: self.metadata.deep_view(),
        }
    }
}

/// A copy of `steps`.
pub fn copy_entries(steps: &Vec<PlanEntry>) -> (r: Vec<PlanEntry>)
    ensures
        r.deep_view() == steps.deep_view(),
{
    let mut out: Vec<PlanEntry> = Vec::new();
    let mut i: usize = 0;
    while i < steps.len()
        invariant
            i <= steps.len(),
            out@.len() == i,
            forall|j: int|
                0 <= j < i ==> (#[trigger] out@[j]).deep_view() == steps@[j].deep_view(),
        decreases steps.len() - i,
    {
        out.push(steps[i].clone());
        i += 1;
    }
    proof {
        assert(out.deep_view() =~= steps.deep_view());
    }
    out
}

impl Clone for PlanArtifact {
    fn clone(&self) -> (r: Self)
        ensures
            r.deep_view() == self.deep_view(),
    {
        PlanArtifact {
            title: self.title.clone(),
            objectives: copy_strings(&self.objectives),
            constraints: copy_strings(&self.constraints),
            assumptions: copy_strings(&self.assumptions),
            approach: copy_strings(&self.approach),
            steps: copy_entries(&self.steps),
            affected_areas: copy_strings(&self.affected_areas),
            risks: copy_strings(&self.risks),
            alternatives: copy_strings(&self.alternatives),
            next_actions: copy_strings(&self.next_actions),
            tests: copy_strings(&self.tests),
            rollback: copy_strings(&self.rollback),
            success_criteria: copy_strings(&self.success_criteria),
            metadata: self.metadata.clone(),
        }
    }
}

pub open spec fn empty_artifact() -> PlanArtifactView {
    PlanArtifactView {
        title: Seq::empty(),
        objectives: Seq::empty(),
        constraints: Seq::empty(),
        assumptions: Seq::empty(),
        approach: Seq::empty(),
        steps: Seq::empty(),
        affected_areas: Seq::empty(),
        risks: Seq::empty(),
        alternatives: Seq::empty(),
        next_actions: Seq::empty(),
        tests: Seq::empty(),
        rollback: Seq::empty(),
        success_criteria: Seq::empty(),
        metadata: PlanArtifactMetadataView { template: None, model: None, updated_at: None },
    }
}

fn no_strings() -> (r: Vec<String>)
    ensures
        r.deep_view() == Seq::<Seq<char>>::empty(),
{
    let r: Vec<String> = Vec::new();
    proof {
        assert(r.deep_view() =~= Seq::<Seq<char>>::empty());
    }
    r
}

impl Default for PlanArtifact {
    fn default() -> (r: Self)
        ensures
            r.deep_view() == empty_artifact(),
    {
        let steps: Vec<PlanEntry> = Vec::new();
        proof {
            assert(steps.deep_view() =~= Seq::<PlanEntryView>::empty());
        }
        PlanArtifact {
            title: String::new(),
            objectives: no_strings(),
            constraints: no_strings(),
            assumptions: no_strings(),
            approach: no_strings(),
            steps,
            affected_areas: no_strings(),
            risks: no_strings(),
            alternatives: no_strings(),
            next_actions: no_strings(),
            tests: no_strings(),
            rollback: no_strings(),
            success_criteria: no_strings(),
            metadata: PlanArtifactMetadata::default(),
        }
    }
}

/// The sequence number after the last step's, saturating; 1 for the
/// first step.
pub open spec fn next_sequence_of(steps: Seq<PlanEntryView>) -> u16 {
    if steps.len() == 0 {
        1
    } else if steps.last().sequence == u16::MAX {
        u16::MAX
    } else {
        (steps.last().sequence + 1) as u16
    }
}

/// The lines of one section: nothing for an empty list; otherwise the
/// label, one bullet for each item that is not empty, and a blank line.
pub open spec fn section_lines(label: Seq<char>, items: Seq<Seq<char>>) -> Seq<Seq<char>> {
    if items.len() == 0 {
        Seq::empty()
    } else {
        seq![label + ":"@] + bullets_upto(items, items.len() as int) + seq![Seq::<char>::empty()]
    }
}

pub open spec fn bullets_upto(items: Seq<Seq<char>>, n: int) -> Seq<Seq<char>>
    decreases n,
{
    if n <= 0 {
        Seq::empty()
    } else if items[n - 1].len() == 0 {
        bullets_upto(items, n - 1)
    } else {
        bullets_upto(items, n - 1).push("- "@ + items[n - 1])
    }
}

/// One indented bullet for each line of the details that is not blank.
pub open spec fn detail_bullets(lines: Seq<Seq<char>>, n: int) -> Seq<Seq<char>>
    decreases n,
{
    if n <= 0 {
        Seq::empty()
    } else if is_blank(lines[n - 1]) {
        detail_bullets(lines, n - 1)
    } else {
        detail_bullets(lines, n - 1).push("    - "@ + lines[n - 1])
    }
}

/// The lines of step `index` (counted from 0): its number and trimmed
/// summary, then its details.
pub open spec fn step_lines(index: int, step: PlanEntryView) -> Seq<Seq<char>> {
    let head = decimal((index + 1) as nat) + ". "@ + trimmed(step.summary);
    match step.details {
        Some(d) => seq![head] + detail_bullets(lines_of(d), lines_of(d).len() as int),
        None => seq![head],
    }
}

pub open spec fn steps_upto(steps: Seq<PlanEntryView>, n: int) -> Seq<Seq<char>>
    decreases n,
{
    if n <= 0 {
        Seq::empty()
    } else {
        steps_upto(steps, n - 1) + step_lines(n - 1, steps[n - 1])
    }
}

pub open spec fn steps_section(steps: Seq<PlanEntryView>) -> Seq<Seq<char>> {
    if steps.len() == 0 {
        Seq::empty()
    } else {
        seq!["Steps:"@] + steps_upto(steps, steps.len() as int) + seq![Seq::<char>::empty()]
    }
}

pub open spec fn title_line(title: Seq<char>) -> Seq<char> {
    if title.len() == 0 {
        "Plan Ready for Execution"@
    } else {
        "Plan Ready for Execution: "@ + title
    }
}

pub open spec fn reminder_line() -> Seq<char> {
    "Reminder: Save this plan with `/save-plan <path>` before leaving the planning context."@
}

/// The lines of the summary of a plan.
pub open spec fn summary_lines(a: PlanArtifactView) -> Seq<Seq<char>> {
    seq![title_line(a.title), Seq::<char>::empty()] + section_lines("Objectives"@, a.objectives)
        + section_lines("Constraints"@, a.constraints) + section_lines(
        "Assumptions"@,
        a.assumptions,
    ) + section_lines("Approach"@, a.approach) + steps_section(a.steps) + section_lines(
        "Affected Areas"@,
        a.affected_areas,
    ) + section_lines("Risks"@, a.risks) + section_lines("Alternatives"@, a.alternatives)
        + section_lines("Rollback / Mitigations"@, a.rollback) + section_lines(
        "Success Criteria"@,
        a.success_criteria,
    ) + section_lines("Tests"@, a.tests) + section_lines("Next Actions"@, a.next_actions)
        + seq![reminder_line()]
}

/// The summary of a plan, as Markdown.
pub open spec fn summary_markdown(a: PlanArtifactView) -> Seq<char> {
    joined(summary_lines(a), "\n"@)
}

fn text2(a: &str, b: &str) -> (r: String)
    ensures
        r@ == a@ + b@,
{
    let mut out: Vec<char> = Vec::new();
    push_str(&mut out, a);
    push_str(&mut out, b);
    proof {
        assert(out@ =~= a@ + b@);
    }
    string_of(&out)
}

fn push_section(lines: &mut Vec<String>, label: &str, items: &Vec<String>)
    ensures
        final(lines).deep_view() == old(lines).deep_view() + section_lines(
            label@,
            items.deep_view(),
        ),
{
    if items.len() == 0 {
        proof {
            assert(lines.deep_view() =~= old(lines).deep_view() + Seq::<Seq<char>>::empty());
        }
        return ;
    }
    let ghost l0 = lines.deep_view();
    lines.push(text2(label, ":"));
    let ghost l1 = lines.deep_view();
    proof {
        assert(l1 =~= l0 + seq![label@ + ":"@]);
    }
    let mut i: usize = 0;
    proof {
        assert(l1 =~= l1 + bullets_upto(items.deep_view(), 0));
    }
    while i < items.len()
        invariant
            i <= items.len(),
            lines.deep_view() == l1 + bullets_upto(items.deep_view(), i as int),
        decreases items.len() - i,
    {
        let ghost before = lines.deep_view();
        proof {
            assert(items.deep_view()[i as int] == items@[i as int]@);
        }
        if !items[i].as_str().is_empty() {
            lines.push(text2("- ", items[i].as_str()));
            proof {
                assert(lines.deep_view() =~= before.push("- "@ + items@[i as int]@));
                assert(before.push("- "@ + items@[i as int]@) =~= l1 + bullets_upto(
                    items.deep_view(),
                    i + 1,
                ));
            }
        }
        i += 1;
    }
    let ghost l2 = lines.deep_view();
    lines.push(String::new());
    proof {
        assert(lines.deep_view() =~= l2.push(Seq::<char>::empty()));
        assert(l2.push(Seq::<char>::empty()) =~= l0 + section_lines(label@, items.deep_view()));
    }
}

fn push_step(lines: &mut Vec<String>, index: usize, step: &PlanEntry)
    requires
        index < usize::MAX,
    ensures
        final(lines).deep_view() == old(lines).deep_view() + step_lines(
            index as int,
            step.deep_view(),
        ),
{
    let ghost l0 = lines.deep_view();
    let mut head: Vec<char> = decimal_chars((index + 1) as u64);
    push_str(&mut head, ". ");
    let summary = trim(step.summary.as_str());
    push_str(&mut head, summary.as_str());
    let ghost head_text = decimal((index + 1) as nat) + ". "@ + trimmed(step.summary@);
    proof {
        assert(head@ =~= head_text);
    }
    lines.push(string_of(&head));
    let ghost l1 = lines.deep_view();
    proof {
        assert(l1 =~= l0 + seq![head_text]);
    }
    match &step.details {
        Some(details) => {
            let chars = chars_of(details.as_str());
            let detail_lines = split_lines(&chars);
            let ghost dl = lines_of(details@);
            let mut k: usize = 0;
            proof {
                assert(l1 =~= l1 + detail_bullets(dl, 0));
            }
            while k < detail_lines.len()
                invariant
                    k <= detail_lines.len(),
                    texts(detail_lines@) == dl,
                    lines.deep_view() == l1 + detail_bullets(dl, k as int),
                decreases detail_lines.len() - k,
            {
                let ghost before = lines.deep_view();
                let line = &detail_lines[k];
                proof {
                    assert(dl[k as int] == detail_lines@[k as int]@);
                    crate::text::lemma_trimmed_empty(line@);
                }
                let (a, b) = trim_bounds(line);
                if a != b {
                    let mut bullet: Vec<char> = Vec::new();
                    push_str(&mut bullet, "    - ");
                    push_all(&mut bullet, line);
                    proof {
                        assert(bullet@ =~= "    - "@ + dl[k as int]);
                    }
                    lines.push(string_of(&bullet));
                    proof {
                        assert(lines.deep_view() =~= before.push("    - "@ + dl[k as int]));
                        assert(before.push("    - "@ + dl[k as int]) =~= l1 + detail_bullets(
                            dl,
                            k + 1,
                        ));
                    }
                }
                k += 1;
            }
            proof {
                assert(lines.deep_view() =~= l0 + step_lines(index as int, step.deep_view()));
            }
        },
        None => {},
    }
}

fn push_steps(lines: &mut Vec<String>, steps: &Vec<PlanEntry>)
    ensures
        final(lines).deep_view() == old(lines).deep_view() + steps_section(steps.deep_view()),
{
    if steps.len() == 0 {
        proof {
            assert(lines.deep_view() =~= old(lines).deep_view() + Seq::<Seq<char>>::empty());
        }
        return ;
    }
    let ghost l0 = lines.deep_view();
    lines.push(String::from_str("Steps:"));
    let ghost l1 = lines.deep_view();
    proof {
        assert(l1 =~= l0 + seq!["Steps:"@]);
        assert(l1 =~= l1 + steps_upto(steps.deep_view(), 0));
    }
    let mut i: usize = 0;
    while i < steps.len()
        invariant
            i <= steps.len(),
            lines.deep_view() == l1 + steps_upto(steps.deep_view(), i as int),
        decreases steps.len() - i,
    {
        let ghost before = lines.deep_view();
        push_step(lines, i, &steps[i]);
        proof {
            let add = step_lines(i as int, steps.deep_view()[i as int]);
            assert(before + add =~= l1 + steps_upto(steps.deep_view(), i + 1));
        }
        i += 1;
    }
    let ghost l2 = lines.deep_view();
    lines.push(String::new());
    proof {
        assert(lines.deep_view() =~= l2.push(Seq::<char>::empty()));
        assert(l2.push(Seq::<char>::empty()) =~= l0 + steps_section(steps.deep_view()));
    }
}

impl PlanArtifact {
    /// Appends `entry`. An entry that comes without a sequence number
    /// (0) gets the next one.
    pub fn add_entry(&mut self, entry: PlanEntry)
        ensures
            final(self).deep_view() == (PlanArtifactView {
                steps: old(self).deep_view().steps.push(
                    PlanEntryView {
                        sequence: if entry.sequence == 0 {
                            next_sequence_of(old(self).deep_view().steps)
                        } else {
                            entry.sequence
                        },
                        ..entry.deep_view()
                    },
                ),
                ..old(self).deep_view()
            }),
    {
        let mut entry = entry;
        if entry.sequence == 0 {
            entry.sequence = self.next_sequence();
        }
        let ghost s0 = self.steps.deep_view();
        let ghost ev = entry.deep_view();
        self.steps.push(entry);
        proof {
            assert(self.steps.deep_view() =~= s0.push(ev));
        }
    }

    /// Appends a new entry of the given kind with the next sequence
    /// number.
    pub fn push_summary_entry(&mut self, entry_type: PlanEntryType, summary: &str)
        ensures
            final(self).deep_view().steps.len() == old(self).deep_view().steps.len() + 1,
            final(self).deep_view() == (PlanArtifactView {
                steps: old(self).deep_view().steps.push(
                    PlanEntryView {
                        sequence: next_sequence_of(old(self).deep_view().steps),
                        entry_type,
                        summary: summary@,
                        details: None,
                        created_at: final(self).deep_view().steps.last().created_at,
                    },
                ),
                ..old(self).deep_view()
            }),
    {
        let mut entry = PlanEntry::new(entry_type, summary);
        entry.sequence = self.next_sequence();
        let ghost s0 = self.steps.deep_view();
        let ghost ev = entry.deep_view();
        self.steps.push(entry);
        proof {
            assert(self.steps.deep_view() =~= s0.push(ev));
        }
    }

    /// The number of steps recorded so far.
    pub fn entry_count(&self) -> (r: usize)
        ensures
            r == self.deep_view().steps.len(),
    {
        self.steps.len()
    }

    /// The sequence number that the next step gets.
    pub fn next_sequence(&self) -> (r: u16)
        ensures
            r == next_sequence_of(self.deep_view().steps),
    {
        let n = self.steps.len();
        if n == 0 {
            1
        } else {
            proof {
                assert(self.steps.deep_view().last() == self.steps@[n - 1].deep_view());
            }
            let last = self.steps[n - 1].sequence;
            if last == u16::MAX {
                u16::MAX
            } else {
                last + 1
            }
        }
    }

    /// The plan as a Markdown summary: the title, then each section
    /// that holds anything, the steps numbered from 1, and a reminder.
    pub fn to_summary_markdown(&self) -> (r: String)
        ensures
            r@ == summary_markdown(self.deep_view()),
    {
        let mut lines: Vec<String> = Vec::new();
        if self.title.as_str().is_empty() {
            lines.push(String::from_str("Plan Ready for Execution"));
        } else {
            lines.push(text2("Plan Ready for Execution: ", self.title.as_str()));
        }
        lines.push(String::new());
        proof {
            assert(lines.deep_view() =~= seq![title_line(self.title@), Seq::<char>::empty()]);
        }
        push_section(&mut lines, "Objectives", &self.objectives);
        push_section(&mut lines, "Constraints", &self.constraints);
        push_section(&mut lines, "Assumptions", &self.assumptions);
        push_section(&mut lines, "Approach", &self.approach);
        push_steps(&mut lines, &self.steps);
        push_section(&mut lines, "Affected Areas", &self.affected_areas);
        push_section(&mut lines, "Risks", &self.risks);
        push_section(&mut lines, "Alternatives", &self.alternatives);
        push_section(&mut lines, "Rollback / Mitigations", &self.rollback);
        push_section(&mut lines, "Success Criteria", &self.success_criteria);
        push_section(&mut lines, "Tests", &self.tests);
        push_section(&mut lines, "Next Actions", &self.next_actions);
        let ghost before = lines.deep_view();
        lines.push(
            String::from_str(
                "Reminder: Save this plan with `/save-plan <path>` before leaving the planning context.",
            ),
        );
        proof {
            assert(lines.deep_view() =~= before + seq![reminder_line()]);
            assert(string_texts(lines@) =~= lines.deep_view());
            assert(lines.deep_view() == summary_lines(self.deep_view()));
        }
        join(&lines, "\n")
    }
}

} // verus!
