//! What a tool can do, as far as Plan Mode cares.

use vstd::prelude::*;

verus! {

#[derive(Clone, Copy, Debug, PartialEq, Eq, Structural)]
pub enum ToolMode {
    ReadOnly,
    Write,
    Execute,
}

impl ToolMode {
    pub fn is_read_only(self) -> (r: bool)
        ensures
            r == (self == ToolMode::ReadOnly),
    {
        matches!(self, ToolMode::ReadOnly)
    }
}

#[derive(Debug, PartialEq, Eq)]
pub struct ToolCapability {
    pub id: String,
    pub mode: ToolMode,
    pub requires_network: bool,
}

impl Clone for ToolCapability {
    fn clone(&self) -> (r: Self)
        ensures
            r.id@ == self.id@,
            r.mode == self.mode,
            r.requires_network == self.requires_network,
    {
        ToolCapability {
            id: self.id.clone(),
            mode: self.mode,
            requires_network: self.requires_network,
        }
    }
}

impl ToolCapability {
    /// A capability that needs no network.
    pub fn new(id: &str, mode: ToolMode) -> (r: Self)
        ensures
            r.id@ == id@,
            r.mode == mode,
            !r.requires_network,
    {
        ToolCapability { id: String::from_str(id), mode, requires_network: false }
    }

    pub fn with_network_requirement(self, requires_network: bool) -> (r: Self)
        ensures
            r.id == self.id,
            r.mode == self.mode,
            r.requires_network == requires_network,
    {
        let mut r = self;
        r.requires_network = requires_network;
        r
    }

    /// A capability may be offered in Plan Mode where it is read-only
    /// and needs no network, or the network is enabled.
    pub fn is_allowed_in_plan_mode(&self, network_enabled: bool) -> (r: bool)
        ensures
            r == (self.mode == ToolMode::ReadOnly && (!self.requires_network || network_enabled)),
    {
        self.mode.is_read_only() && (!self.requires_network || network_enabled)
    }
}

} // verus!
