//! What the user configures for Plan Mode.

use crate::copying::{copy_opt_string, copy_strings};
use crate::plan_mode::allow_list::{allow_list_of, PlanModeAllowList};
use vstd::prelude::*;

verus! {

#[derive(Debug, PartialEq, Eq)]
pub struct PlanModeConfig {
    pub plan_enabled: bool,
    pub allowed_read_only_tools: Vec<String>,
    pub planning_model: Option<String>,
    pub apply_requires_confirmation: bool,
}

impl Clone for PlanModeConfig {
    fn clone(&self) -> (r: Self)
        ensures
            r.plan_enabled == self.plan_enabled,
            r.allowed_read_only_tools.deep_view() == self.allowed_read_only_tools.deep_view(),
            r.planning_model.deep_view() == self.planning_model.deep_view(),
            r.apply_requires_confirmation == self.apply_requires_confirmation,
    {
        PlanModeConfig {
            plan_enabled: self.plan_enabled,
            allowed_read_only_tools: copy_strings(&self.allowed_read_only_tools),
            planning_model: copy_opt_string(&self.planning_model),
            apply_requires_confirmation: self.apply_requires_confirmation,
        }
    }
}

impl Default for PlanModeConfig {
    /// Plan Mode is off, nothing beyond the defaults is allowed, and
    /// applying a plan asks for confirmation.
    fn default() -> (r: Self)
        ensures
            !r.plan_enabled,
            r.allowed_read_only_tools@.len() == 0,
            r.planning_model is None,
            r.apply_requires_confirmation,
    {
        PlanModeConfig {
            plan_enabled: false,
            allowed_read_only_tools: Vec::new(),
            planning_model: None,
            apply_requires_confirmation: true,
        }
    }
}

impl PlanModeConfig {
    pub fn is_enabled(&self) -> (r: bool)
        ensures
            r == self.plan_enabled,
    {
        self.plan_enabled
    }

    /// The allow-list that the configured entries give.
    pub fn allow_list(&self) -> (r: PlanModeAllowList)
        ensures
            r.deep_view() == allow_list_of(self.allowed_read_only_tools.deep_view()),
    {
        PlanModeAllowList::new(&self.allowed_read_only_tools)
    }
}

} // verus!
