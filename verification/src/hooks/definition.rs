//! One configured hook.

use crate::copying::{copy_opt_string, copy_strings};
use crate::hooks::events::HookEvent;
use crate::hooks::matchers::{no_matchers, HookMatchers, HookMatchersView};
use crate::hooks::scope::{HookScope, HookScopeView};
use vstd::prelude::*;

verus! {

#[derive(Debug, PartialEq, Eq)]
pub struct HookDefinition {
    pub id: String,
    pub event: HookEvent,
    pub notes: Option<String>,
    pub command: Vec<String>,
    pub working_dir: Option<String>,
    pub timeout_ms: Option<u64>,
    pub allow_parallel: bool,
    pub schema_versions: Vec<String>,
    pub env: Vec<(String, String)>,
    pub matchers: HookMatchers,
    pub scope: HookScope,
    pub source_path: Option<String>,
}

pub struct HookDefinitionView {
    pub id: Seq<char>,
    pub event: HookEvent,
    pub notes: Option<Seq<char>>,
    pub command: Seq<Seq<char>>,
    pub working_dir: Option<Seq<char>>,
    pub timeout_ms: Option<u64>,
    pub allow_parallel: bool,
    pub schema_versions: Seq<Seq<char>>,
    pub env: Seq<(Seq<char>, Seq<char>)>,
    pub matchers: HookMatchersView,
    pub scope: HookScopeView,
    pub source_path: Option<Seq<char>>,
}

impl DeepView for HookDefinition {
    type V = HookDefinitionView;

    open spec fn deep_view(&self) -> HookDefinitionView {
        HookDefinitionView {
            id: self.id@,
            event: self.event,
            notes: self.notes.deep_view(),
            command: self.command.deep_view(),
            working_dir: self.working_dir.deep_view(),
            timeout_ms: self.timeout_ms,
            allow_parallel: self.allow_parallel,
            schema_versions: self.schema_versions.deep_view(),
            env: self.env.deep_view(),
            matchers: self.matchers.deep_view(),
            scope: self.scope.deep_view(),
            source_path: self.source_path.deep_view(),
        }
    }
}

/// A copy of `v`.
pub fn copy_pairs(v: &Vec<(String, String)>) -> (r: Vec<(String, String)>)
    ensures
        r.deep_view() == v.deep_view(),
{
    let mut out: Vec<(String, String)> = Vec::new();
    let mut i: usize = 0;
    while i < v.len()
        invariant
            i <= v.len(),
            out@.len() == i,
            forall|j: int| 0 <= j < i ==> (#[trigger] out@[j]).deep_view() == v@[j].deep_view(),
        decreases v.len() - i,
    {
        out.push((v[i].0.clone(), v[i].1.clone()));
        i += 1;
    }
    proof {
        assert(out.deep_view() =~= v.deep_view());
    }
    out
}

impl Clone for HookDefinition {
    fn clone(&self) -> (r: Self)
        ensures
            r.deep_view() == self.deep_view(),
    {
        HookDefinition {
            id: self.id.clone(),
            event: self.event,
            notes: copy_opt_string(&self.notes),
            command: copy_strings(&self.command),
            working_dir: copy_opt_string(&self.working_dir),
            timeout_ms: self.timeout_ms,
            allow_parallel: self.allow_parallel,
            schema_versions: copy_strings(&self.schema_versions),
            env: copy_pairs(&self.env),
            matchers: self.matchers.clone(),
            scope: self.scope.clone(),
            source_path: copy_opt_string(&self.source_path),
        }
    }
}

/// A copy of `v`.
pub fn copy_definitions(v: &Vec<HookDefinition>) -> (r: Vec<HookDefinition>)
    ensures
        r.deep_view() == v.deep_view(),
{
    let mut out: Vec<HookDefinition> = Vec::new();
    let mut i: usize = 0;
    while i < v.len()
        invariant
            i <= v.len(),
            out@.len() == i,
            forall|j: int| 0 <= j < i ==> (#[trigger] out@[j]).deep_view() == v@[j].deep_view(),
        decreases v.len() - i,
    {
        out.push(v[i].clone());
        i += 1;
    }
    proof {
        assert(out.deep_view() =~= v.deep_view());
    }
    out
}

/// A definition with nothing but the given fields filled in.
pub open spec fn bare_definition(
    id: Seq<char>,
    event: HookEvent,
    schema_versions: Seq<Seq<char>>,
    scope: HookScopeView,
) -> HookDefinitionView {
    HookDefinitionView {
        id,
        event,
        notes: None,
        command: Seq::empty(),
        working_dir: None,
        timeout_ms: None,
        allow_parallel: false,
        schema_versions,
        env: Seq::empty(),
        matchers: no_matchers(),
        scope,
        source_path: None,
    }
}

impl HookDefinition {
    /// A hook for `event` that speaks schema version 1.0 and has no
    /// command yet.
    pub fn new(id: &str, event: HookEvent, scope: HookScope) -> (r: Self)
        ensures
            r.deep_view() == bare_definition(id@, event, seq!["1.0"@], scope.deep_view()),
    {
        let command: Vec<String> = Vec::new();
        let mut schema_versions: Vec<String> = Vec::new();
        schema_versions.push(String::from_str("1.0"));
        let env: Vec<(String, String)> = Vec::new();
        proof {
            assert(command.deep_view() =~= Seq::<Seq<char>>::empty());
            assert(schema_versions.deep_view() =~= seq!["1.0"@]);
            assert(env.deep_view() =~= Seq::<(Seq<char>, Seq<char>)>::empty());
        }
        HookDefinition {
            id: String::from_str(id),
            event,
            notes: None,
            command,
            working_dir: None,
            timeout_ms: None,
            allow_parallel: false,
            schema_versions,
            env,
            matchers: HookMatchers::default(),
            scope,
            source_path: None,
        }
    }
}

impl Default for HookDefinition {
    fn default() -> (r: Self)
        ensures
            r.deep_view() == bare_definition(
                Seq::empty(),
                HookEvent::PreToolUse,
                Seq::empty(),
                HookScopeView::LocalUser { codex_home: Seq::empty() },
            ),
    {
        let command: Vec<String> = Vec::new();
        let schema_versions: Vec<String> = Vec::new();
        let env: Vec<(String, String)> = Vec::new();
        proof {
            assert(command.deep_view() =~= Seq::<Seq<char>>::empty());
            assert(schema_versions.deep_view() =~= Seq::<Seq<char>>::empty());
            assert(env.deep_view() =~= Seq::<(Seq<char>, Seq<char>)>::empty());
        }
        HookDefinition {
            id: String::new(),
            event: HookEvent::PreToolUse,
            notes: None,
            command,
            working_dir: None,
            timeout_ms: None,
            allow_parallel: false,
            schema_versions,
            env,
            matchers: HookMatchers::default(),
            scope: HookScope::default(),
            source_path: None,
        }
    }
}

} // verus!
