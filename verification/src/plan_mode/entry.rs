//! One proposed action, recorded instead of carried out.

use crate::clock::{now, Timestamp};
use crate::copying::copy_opt_string;
use vstd::prelude::*;

verus! {

#[derive(Clone, Copy, Debug, PartialEq, Eq, Structural)]
pub enum PlanEntryType {
    Command,
    FileChange,
    Research,
    Decision,
}

impl Default for PlanEntryType {
    fn default() -> (r: Self)
        ensures
            r == PlanEntryType::Research,
    {
        PlanEntryType::Research
    }
}

#[derive(Debug, PartialEq, Eq)]
pub struct PlanEntry {
    pub sequence: u16,
    pub entry_type: PlanEntryType,
    pub summary: String,
    pub details: Option<String>,
    pub created_at: Timestamp,
}

pub struct PlanEntryView {
    pub sequence: u16,
    pub entry_type: PlanEntryType,
    pub summary: Seq<char>,
    pub details: Option<Seq<char>>,
    pub created_at: Timestamp,
}

impl DeepView for PlanEntry {
    type V = PlanEntryView;

    open spec fn deep_view(&self) -> PlanEntryView {
        PlanEntryView {
            sequence: self.sequence,
            entry_type: self.entry_type,
            summary: self.summary@,
            details: self.details.deep_view(),
            created_at: self.created_at,
        }
    }
}

impl Clone for PlanEntry {
    fn clone(&self) -> (r: Self)
        ensures
            r.deep_view() == self.deep_view(),
    {
        PlanEntry {
            sequence: self.sequence,
            entry_type: self.entry_type,
            summary: self.summary.clone(),
            details: copy_opt_string(&self.details),
            created_at: self.created_at,
        }
    }
}

impl Default for PlanEntry {
    fn default() -> (r: Self)
        ensures
            r.sequence == 0,
            r.entry_type == PlanEntryType::Research,
            r.summary@.len() == 0,
            r.details is None,
    {
        PlanEntry {
            sequence: 0,
            entry_type: PlanEntryType::Research,
            summary: String::new(),
            details: None,
            created_at: now(),
        }
    }
}

impl PlanEntry {
    /// An entry without a sequence number (0) and without details,
    /// created at the present instant.
    pub fn new(entry_type: PlanEntryType, summary: &str) -> (r: Self)
        ensures
            r.deep_view() == (PlanEntryView {
                sequence: 0,
                entry_type,
                summary: summary@,
                details: None,
                created_at: r.created_at,
            }),
    {
        PlanEntry::at(entry_type, summary, now())
    }

    /// An entry without a sequence number and without details, created
    /// at the given instant.
    pub fn at(entry_type: PlanEntryType, summary: &str, created_at: Timestamp) -> (r: Self)
        ensures
            r.deep_view() == (PlanEntryView {
                sequence: 0,
                entry_type,
                summary: summary@,
                details: None,
                created_at,
            }),
    {
        PlanEntry {
            sequence: 0,
            entry_type,
            summary: String::from_str(summary),
            details: None,
            created_at,
        }
    }

    pub fn with_details(self, details: &str) -> (r: Self)
        ensures
            r.deep_view() == (PlanEntryView { details: Some(details@), ..self.deep_view() }),
    {
        let mut r = self;
        r.details = Some(String::from_str(details));
        r
    }
}

} // verus!
