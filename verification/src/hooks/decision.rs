//! What a hook decides.

use crate::copying::copy_opt_string;
use vstd::prelude::*;

verus! {

#[derive(Clone, Copy, Debug, PartialEq, Eq, Structural)]
pub enum HookOutcome {
    Allow,
    Ask,
    Deny,
    Block,
    Continue,
}

/// The name of an outcome.
pub open spec fn outcome_name(o: HookOutcome) -> Seq<char> {
    match o {
        HookOutcome::Allow => "Allow"@,
        HookOutcome::Ask => "Ask"@,
        HookOutcome::Deny => "Deny"@,
        HookOutcome::Block => "Block"@,
        HookOutcome::Continue => "Continue"@,
    }
}

pub fn format_outcome(o: HookOutcome) -> (r: String)
    ensures
        r@ == outcome_name(o),
{
    match o {
        HookOutcome::Allow => String::from_str("Allow"),
        HookOutcome::Ask => String::from_str("Ask"),
        HookOutcome::Deny => String::from_str("Deny"),
        HookOutcome::Block => String::from_str("Block"),
        HookOutcome::Continue => String::from_str("Continue"),
    }
}

/// A decision. `extra` holds JSON text; `None` stands for JSON `null`.
#[derive(Debug, PartialEq, Eq)]
pub struct HookDecision {
    pub decision: HookOutcome,
    pub message: Option<String>,
    pub system_message: Option<String>,
    pub stop_reason: Option<String>,
    pub extra: Option<String>,
    pub exit_code: i32,
}

pub struct HookDecisionView {
    pub decision: HookOutcome,
    pub message: Option<Seq<char>>,
    pub system_message: Option<Seq<char>>,
    pub stop_reason: Option<Seq<char>>,
    pub extra: Option<Seq<char>>,
    pub exit_code: i32,
}

impl DeepView for HookDecision {
    type V = HookDecisionView;

    open spec fn deep_view(&self) -> HookDecisionView {
        HookDecisionView {
            decision: self.decision,
            message: self.message.deep_view(),
            system_message: self.system_message.deep_view(),
            stop_reason: self.stop_reason.deep_view(),
            extra: self.extra.deep_view(),
            exit_code: self.exit_code,
        }
    }
}

impl Clone for HookDecision {
    fn clone(&self) -> (r: Self)
        ensures
            r.deep_view() == self.deep_view(),
    {
        HookDecision {
            decision: self.decision,
            message: copy_opt_string(&self.message),
            system_message: copy_opt_string(&self.system_message),
            stop_reason: copy_opt_string(&self.stop_reason),
            extra: copy_opt_string(&self.extra),
            exit_code: self.exit_code,
        }
    }
}

/// The decision to allow, with exit code 0 and nothing to say.
pub open spec fn allow_decision() -> HookDecisionView {
    HookDecisionView {
        decision: HookOutcome::Allow,
        message: None,
        system_message: None,
        stop_reason: None,
        extra: None,
        exit_code: 0,
    }
}

impl Default for HookDecision {
    fn default() -> (r: Self)
        ensures
            r.deep_view() == allow_decision(),
    {
        HookDecision {
            decision: HookOutcome::Allow,
            message: None,
            system_message: None,
            stop_reason: None,
            extra: None,
            exit_code: 0,
        }
    }
}

/// A decision stops the tool where it is anything but `Allow`.
pub open spec fn blocks(d: HookDecisionView) -> bool {
    d.decision != HookOutcome::Allow
}

impl HookDecision {
    pub fn is_blocking(&self) -> (r: bool)
        ensures
            r == blocks(self.deep_view()),
    {
        !matches!(self.decision, HookOutcome::Allow)
    }
}

} // verus!
