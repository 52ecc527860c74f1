//! What clients ask of a session.

use crate::hooks::inspect::{HookExecLogRequest, HookValidateRequest};
use crate::hooks::snapshot::HookListRequest;
use crate::protocol::items::InputItem;
use crate::protocol::{AskForApproval, ReviewDecision, SandboxPolicy, SubagentApprovalDecision};
use vstd::prelude::*;

verus! {

#[allow(inconsistent_fields)]
#[derive(Debug)]
pub enum Op {
    Interrupt,
    UserInput { items: Vec<InputItem> },
    UserTurn {
        items: Vec<InputItem>,
        cwd: String,
        approval_policy: AskForApproval,
        sandbox_policy: SandboxPolicy,
        model: String,
    },
    OverrideTurnContext {
        cwd: Option<String>,
        approval_policy: Option<AskForApproval>,
        sandbox_policy: Option<SandboxPolicy>,
        model: Option<String>,
    },
    ExecApproval { id: String, decision: ReviewDecision },
    PatchApproval { id: String, decision: ReviewDecision },
    SubagentApproval { name: String, decision: SubagentApprovalDecision },
    AddToHistory { text: String },
    GetHistoryEntryRequest { offset: usize, log_id: u64 },
    HookList(HookListRequest),
    HookExecLog(HookExecLogRequest),
    HookValidate(HookValidateRequest),
    HookReload,
    ListMcpTools,
    ListCustomPrompts,
    Compact,
    EnterPlanMode,
    ExitPlanMode,
    ApplyPlanMode { target_mode: Option<AskForApproval> },
    Review { prompt: String },
    GetPath,
    Shutdown,
}

/// One request of a client, under the id that its events will bear.
#[derive(Debug)]
pub struct Submission {
    pub id: String,
    pub op: Op,
}

} // verus!
