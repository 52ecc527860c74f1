//! Why an entry of a configuration file did not become a hook.

use crate::copying::copy_opt_string;
use vstd::prelude::*;

verus! {

#[derive(Clone, Copy, Debug, PartialEq, Eq, Structural)]
pub enum HookSkipReason {
    InvalidSchema,
    UnsupportedVersion,
    DuplicateId,
    MissingExecutable,
    InvalidMatcher,
}

/// The name of a reason.
pub open spec fn reason_name(r: HookSkipReason) -> Seq<char> {
    match r {
        HookSkipReason::InvalidSchema => "InvalidSchema"@,
        HookSkipReason::UnsupportedVersion => "UnsupportedVersion"@,
        HookSkipReason::DuplicateId => "DuplicateId"@,
        HookSkipReason::MissingExecutable => "MissingExecutable"@,
        HookSkipReason::InvalidMatcher => "InvalidMatcher"@,
    }
}

pub fn format_skip_reason(r: HookSkipReason) -> (s: String)
    ensures
        s@ == reason_name(r),
{
    match r {
        HookSkipReason::InvalidSchema => String::from_str("InvalidSchema"),
        HookSkipReason::UnsupportedVersion => String::from_str("UnsupportedVersion"),
        HookSkipReason::DuplicateId => String::from_str("DuplicateId"),
        HookSkipReason::MissingExecutable => String::from_str("MissingExecutable"),
        HookSkipReason::InvalidMatcher => String::from_str("InvalidMatcher"),
    }
}

#[derive(Debug, PartialEq, Eq)]
pub struct SkippedHook {
    pub hook_id: Option<String>,
    pub reason: HookSkipReason,
    pub details: Option<String>,
}

pub struct SkippedHookView {
    pub hook_id: Option<Seq<char>>,
    pub reason: HookSkipReason,
    pub details: Option<Seq<char>>,
}

impl DeepView for SkippedHook {
    type V = SkippedHookView;

    open spec fn deep_view(&self) -> SkippedHookView {
        SkippedHookView {
            hook_id: self.hook_id.deep_view(),
            reason: self.reason,
            details: self.details.deep_view(),
        }
    }
}

impl Clone for SkippedHook {
    fn clone(&self) -> (r: Self)
        ensures
            r.deep_view() == self.deep_view(),
    {
        SkippedHook {
            hook_id: copy_opt_string(&self.hook_id),
            reason: self.reason,
            details: copy_opt_string(&self.details),
        }
    }
}

impl SkippedHook {
    pub fn new(reason: HookSkipReason) -> (r: Self)
        ensures
            r.deep_view() == (SkippedHookView { hook_id: None, reason, details: None }),
    {
        SkippedHook { hook_id: None, reason, details: None }
    }

    pub fn with_hook_id(self, id: &str) -> (r: Self)
        ensures
            r.deep_view() == (SkippedHookView { hook_id: Some(id@), ..self.deep_view() }),
    {
        let mut r = self;
        r.hook_id = Some(String::from_str(id));
        r
    }

    pub fn with_details(self, details: &str) -> (r: Self)
        ensures
            r.deep_view() == (SkippedHookView { details: Some(details@), ..self.deep_view() }),
    {
        let mut r = self;
        r.details = Some(String::from_str(details));
        r
    }
}

/// A copy of `v`.
pub fn copy_skipped(v: &Vec<SkippedHook>) -> (r: Vec<SkippedHook>)
    ensures
        r.deep_view() == v.deep_view(),
{
    let mut out: Vec<SkippedHook> = Vec::new();
    let mut i: usize = 0;
    while i < v.len()
        invariant
            i <= v.len(),
            out@.len() == i,
            forall|j: int| 0 <= j < i ==> (#[trigger] out@[j]).deep_view() == v@[j].deep_view(),
        decreases v.len() - i,
    {
        out.push(v[i].clone());
        i += 1;
    }
    proof {
        assert(out.deep_view() =~= v.deep_view());
    }
    out
}

} // verus!
