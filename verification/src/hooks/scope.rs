//! Where a hook definition comes from, which decides its precedence.

use vstd::prelude::*;

verus! {

#[derive(Debug, PartialEq, Eq)]
pub enum HookScope {
    ManagedPolicy { name: String },
    Project { project_root: String },
    LocalUser { codex_home: String },
}

pub enum HookScopeView {
    ManagedPolicy { name: Seq<char> },
    Project { project_root: Seq<char> },
    LocalUser { codex_home: Seq<char> },
}

impl DeepView for HookScope {
    type V = HookScopeView;

    open spec fn deep_view(&self) -> HookScopeView {
        match self {
            HookScope::ManagedPolicy { name } => HookScopeView::ManagedPolicy { name: name@ },
            HookScope::Project { project_root } => HookScopeView::Project {
                project_root: project_root@,
            },
            HookScope::LocalUser { codex_home } => HookScopeView::LocalUser {
                codex_home: codex_home@,
            },
        }
    }
}

impl Clone for HookScope {
    fn clone(&self) -> (r: Self)
        ensures
            r.deep_view() == self.deep_view(),
    {
        match self {
            HookScope::ManagedPolicy { name } => HookScope::ManagedPolicy { name: name.clone() },
            HookScope::Project { project_root } => HookScope::Project {
                project_root: project_root.clone(),
            },
            HookScope::LocalUser { codex_home } => HookScope::LocalUser {
                codex_home: codex_home.clone(),
            },
        }
    }
}

impl Default for HookScope {
    fn default() -> (r: Self)
        ensures
            r.deep_view() == (HookScopeView::LocalUser { codex_home: Seq::empty() }),
    {
        HookScope::LocalUser { codex_home: String::new() }
    }
}

/// Managed policies come first (0), then projects (1), then the local
/// user (2).
pub open spec fn rank_of(scope: HookScopeView) -> u8 {
    match scope {
        HookScopeView::ManagedPolicy { .. } => 0,
        HookScopeView::Project { .. } => 1,
        HookScopeView::LocalUser { .. } => 2,
    }
}

pub fn precedence_rank(scope: &HookScope) -> (r: u8)
    ensures
        r == rank_of(scope.deep_view()),
{
    match scope {
        HookScope::ManagedPolicy { .. } => 0,
        HookScope::Project { .. } => 1,
        HookScope::LocalUser { .. } => 2,
    }
}

/// A filter on scopes, as requests give it.
#[derive(Clone, Copy, Debug, PartialEq, Eq, Structural)]
pub enum HookScopeFilter {
    Managed,
    Project,
    Local,
}

pub open spec fn scope_passes(filter: Option<HookScopeFilter>, scope: HookScopeView) -> bool {
    match filter {
        None => true,
        Some(HookScopeFilter::Managed) => scope is ManagedPolicy,
        Some(HookScopeFilter::Project) => scope is Project,
        Some(HookScopeFilter::Local) => scope is LocalUser,
    }
}

pub fn scope_matches(filter: Option<HookScopeFilter>, scope: &HookScope) -> (r: bool)
    ensures
        r == scope_passes(filter, scope.deep_view()),
{
    match filter {
        None => true,
        Some(HookScopeFilter::Managed) => matches!(scope, HookScope::ManagedPolicy { .. }),
        Some(HookScopeFilter::Project) => matches!(scope, HookScope::Project { .. }),
        Some(HookScopeFilter::Local) => matches!(scope, HookScope::LocalUser { .. }),
    }
}

} // verus!
