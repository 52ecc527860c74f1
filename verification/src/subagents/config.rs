//! Configuration of the sub-agent feature.

use crate::copying::copy_opt_string;
use vstd::prelude::*;

verus! {

#[derive(Clone, Copy, Debug, PartialEq, Eq, Structural)]
pub enum SubagentDiscoveryMode {
    Auto,
    Manual,
}

#[derive(Debug, PartialEq, Eq)]
pub struct SubagentConfig {
    pub enabled: bool,
    pub default_model: Option<String>,
    pub discovery: SubagentDiscoveryMode,
}

pub struct SubagentConfigView {
    pub enabled: bool,
    pub default_model: Option<Seq<char>>,
    pub discovery: SubagentDiscoveryMode,
}

impl DeepView for SubagentConfig {
    type V = SubagentConfigView;

    open spec fn deep_view(&self) -> SubagentConfigView {
        SubagentConfigView {
            enabled: self.enabled,
            default_model: self.default_model.deep_view(),
            discovery: self.discovery,
        }
    }
}

impl Clone for SubagentConfig {
    fn clone(&self) -> (r: Self)
        ensures
            r.deep_view() == self.deep_view(),
    {
        SubagentConfig {
            enabled: self.enabled,
            default_model: copy_opt_string(&self.default_model),
            discovery: self.discovery,
        }
    }
}

impl Default for SubagentConfig {
    /// The feature is off by default.
    fn default() -> (r: Self)
        ensures
            r.deep_view() == (SubagentConfigView {
                enabled: false,
                default_model: None,
                discovery: SubagentDiscoveryMode::Auto,
            }),
    {
        SubagentConfig { enabled: false, default_model: None, discovery: SubagentDiscoveryMode::Auto }
    }
}

impl SubagentConfig {
    pub fn new(enabled: bool, default_model: Option<String>, discovery: SubagentDiscoveryMode) -> (r:
        Self)
        ensures
            r.deep_view() == (SubagentConfigView {
                enabled,
                default_model: default_model.deep_view(),
                discovery,
            }),
    {
        SubagentConfig { enabled, default_model, discovery }
    }

    /// The feature switched on, with no default model.
    pub fn enabled(discovery: SubagentDiscoveryMode) -> (r: Self)
        ensures
            r.deep_view() == (SubagentConfigView { enabled: true, default_model: None, discovery }),
    {
        SubagentConfig::new(true, None, discovery)
    }

    /// The feature switched off.
    pub fn disabled() -> (r: Self)
        ensures
            r.deep_view() == (SubagentConfigView {
                enabled: false,
                default_model: None,
                discovery: SubagentDiscoveryMode::Auto,
            }),
    {
        SubagentConfig { enabled: false, default_model: None, discovery: SubagentDiscoveryMode::Auto }
    }

    pub fn with_default_model(self, default_model: Option<String>) -> (r: Self)
        ensures
            r.deep_view() == (SubagentConfigView {
                default_model: default_model.deep_view(),
                ..self.deep_view()
            }),
    {
        SubagentConfig { enabled: self.enabled, default_model, discovery: self.discovery }
    }

    pub fn is_enabled(&self) -> (r: bool)
        ensures
            r == self.enabled,
    {
        self.enabled
    }
}

} // verus!
