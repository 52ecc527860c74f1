//! A definition together with what the configuration makes of it.

use crate::copying::{copy_opt_string, copy_strings, holds_text};
use crate::subagents::config::{SubagentConfig, SubagentConfigView};
use crate::subagents::definition::{SubagentDefinition, SubagentDefinitionView};
use vstd::prelude::*;

verus! {

#[derive(Clone, Copy, Debug, PartialEq, Eq, Structural)]
pub enum SubagentStatus {
    Active,
    Invalid,
    Disabled,
}

#[derive(Debug, PartialEq, Eq)]
pub struct SubagentRecord {
    pub definition: SubagentDefinition,
    pub effective_tools: Vec<String>,
    pub effective_model: Option<String>,
    pub status: SubagentStatus,
    pub validation_errors: Vec<String>,
}

pub struct SubagentRecordView {
    pub definition: SubagentDefinitionView,
    pub effective_tools: Seq<Seq<char>>,
    pub effective_model: Option<Seq<char>>,
    pub status: SubagentStatus,
    pub validation_errors: Seq<Seq<char>>,
}

impl DeepView for SubagentRecord {
    type V = SubagentRecordView;

    open spec fn deep_view(&self) -> SubagentRecordView {
        SubagentRecordView {
            definition: self.definition.deep_view(),
            effective_tools: self.effective_tools.deep_view(),
            effective_model: self.effective_model.deep_view(),
            status: self.status,
            validation_errors: self.validation_errors.deep_view(),
        }
    }
}

impl Clone for SubagentRecord {
    fn clone(&self) -> (r: Self)
        ensures
            r.deep_view() == self.deep_view(),
    {
        SubagentRecord {
            definition: self.definition.clone(),
            effective_tools: copy_strings(&self.effective_tools),
            effective_model: copy_opt_string(&self.effective_model),
            status: self.status,
            validation_errors: copy_strings(&self.validation_errors),
        }
    }
}

/// The status of a definition: invalid where it carries errors, else
/// disabled where the feature is off, else active.
pub open spec fn status_of(
    definition: SubagentDefinitionView,
    config: SubagentConfigView,
) -> SubagentStatus {
    if definition.validation_errors.len() > 0 {
        SubagentStatus::Invalid
    } else if !config.enabled {
        SubagentStatus::Disabled
    } else {
        SubagentStatus::Active
    }
}

/// The record of a definition: its own tools, and its own model or,
/// where it names none, the configured default.
pub open spec fn record_of(
    definition: SubagentDefinitionView,
    config: SubagentConfigView,
) -> SubagentRecordView {
    SubagentRecordView {
        definition,
        effective_tools: definition.tools,
        effective_model: if definition.model is Some {
            definition.model
        } else {
            config.default_model
        },
        status: status_of(definition, config),
        validation_errors: definition.validation_errors,
    }
}

/// A record with no tools listed allows every tool.
pub open spec fn record_allows(record: SubagentRecordView, tool: Seq<char>) -> bool {
    record.effective_tools.len() == 0 || record.effective_tools.contains(tool)
}

impl SubagentRecord {
    pub fn from_definition(definition: SubagentDefinition, config: &SubagentConfig) -> (r: Self)
        ensures
            r.deep_view() == record_of(definition.deep_view(), config.deep_view()),
    {
        let status = if definition.validation_errors.len() > 0 {
            SubagentStatus::Invalid
        } else if !config.enabled {
            SubagentStatus::Disabled
        } else {
            SubagentStatus::Active
        };
        let effective_model = match &definition.model {
            Some(model) => Some(model.clone()),
            None => copy_opt_string(&config.default_model),
        };
        SubagentRecord {
            effective_tools: copy_strings(&definition.tools),
            validation_errors: copy_strings(&definition.validation_errors),
            definition,
            effective_model,
            status,
        }
    }

    pub fn allows_tool(&self, tool: &str) -> (r: bool)
        ensures
            r == record_allows(self.deep_view(), tool@),
    {
        if self.effective_tools.len() == 0 {
            return true;
        }
        holds_text(&self.effective_tools, tool)
    }

    pub fn is_active(&self) -> (r: bool)
        ensures
            r == (self.status == SubagentStatus::Active),
    {
        matches!(self.status, SubagentStatus::Active)
    }

    pub fn is_invalid(&self) -> (r: bool)
        ensures
            r == (self.status == SubagentStatus::Invalid),
    {
        matches!(self.status, SubagentStatus::Invalid)
    }
}

} // verus!
