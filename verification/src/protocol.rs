//! What clients and the session core say to each other.

pub mod events;
pub mod items;
pub mod ops;

use vstd::prelude::*;

verus! {

/// When the user is asked before a command runs.
#[derive(Clone, Copy, Debug, PartialEq, Eq, Structural)]
pub enum AskForApproval {
    UnlessTrusted,
    OnFailure,
    OnRequest,
    Never,
}

/// The user's answer to an approval request.
#[derive(Clone, Copy, Debug, PartialEq, Eq, Structural)]
pub enum ReviewDecision {
    Approved,
    ApprovedForSession,
    Denied,
    Abort,
}

impl Default for ReviewDecision {
    /// An answer that never arrives counts as a denial.
    fn default() -> (r: Self)
        ensures
            r == ReviewDecision::Denied,
    {
        ReviewDecision::Denied
    }
}

/// The user's answer to a request to run a sub-agent.
#[derive(Clone, Copy, Debug, PartialEq, Eq, Structural)]
pub enum SubagentApprovalDecision {
    Approved,
    Denied,
}

impl Default for SubagentApprovalDecision {
    fn default() -> (r: Self)
        ensures
            r == SubagentApprovalDecision::Denied,
    {
        SubagentApprovalDecision::Denied
    }
}

/// How commands are confined.
#[derive(Clone, Copy, Debug, PartialEq, Eq, Structural)]
pub enum SandboxPolicy {
    DangerFullAccess,
    ReadOnly,
    WorkspaceWrite { network_access: bool },
}

impl SandboxPolicy {
    pub open spec fn full_network(self) -> bool {
        match self {
            SandboxPolicy::DangerFullAccess => true,
            SandboxPolicy::ReadOnly => false,
            SandboxPolicy::WorkspaceWrite { network_access } => network_access,
        }
    }

    /// Whether commands may reach the network.
    pub fn has_full_network_access(&self) -> (r: bool)
        ensures
            r == self.full_network(),
    {
        match self {
            SandboxPolicy::DangerFullAccess => true,
            SandboxPolicy::ReadOnly => false,
            SandboxPolicy::WorkspaceWrite { network_access } => *network_access,
        }
    }
}

/// The sandbox a command runs in.
#[derive(Clone, Copy, Debug, PartialEq, Eq, Structural)]
pub enum SandboxType {
    Unconfined,
    MacosSeatbelt,
    LinuxSeccomp,
}

/// What the safety assessment of a command came to.
#[derive(Debug, PartialEq, Eq)]
pub enum SafetyCheck {
    AutoApprove { sandbox_type: SandboxType },
    AskUser,
    Reject { reason: String },
}

/// Why a turn was aborted.
#[derive(Clone, Copy, Debug, PartialEq, Eq, Structural)]
pub enum TurnAbortReason {
    Interrupted,
    Replaced,
}

} // verus!
