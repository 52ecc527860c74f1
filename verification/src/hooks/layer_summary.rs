//! What loading one configuration file came to.

use crate::hooks::scope::{HookScope, HookScopeView};
use crate::hooks::skipped::{copy_skipped, SkippedHook, SkippedHookView};
use vstd::prelude::*;

verus! {

#[derive(Debug, PartialEq, Eq)]
pub struct HookLayerSummary {
    pub scope: HookScope,
    pub path: String,
    pub checksum: String,
    pub loaded_hooks: usize,
    pub skipped_hooks: Vec<SkippedHook>,
}

pub struct HookLayerSummaryView {
    pub scope: HookScopeView,
    pub path: Seq<char>,
    pub checksum: Seq<char>,
    pub loaded_hooks: usize,
    pub skipped_hooks: Seq<SkippedHookView>,
}

impl DeepView for HookLayerSummary {
    type V = HookLayerSummaryView;

    open spec fn deep_view(&self) -> HookLayerSummaryView {
        HookLayerSummaryView {
            scope: self.scope.deep_view(),
            path: self.path@,
            checksum: self.checksum@,
            loaded_hooks: self.loaded_hooks,
            skipped_hooks: self.skipped_hooks.deep_view(),
        }
    }
}

impl Clone for HookLayerSummary {
    fn clone(&self) -> (r: Self)
        ensures
            r.deep_view() == self.deep_view(),
    {
        HookLayerSummary {
            scope: self.scope.clone(),
            path: self.path.clone(),
            checksum: self.checksum.clone(),
            loaded_hooks: self.loaded_hooks,
            skipped_hooks: copy_skipped(&self.skipped_hooks),
        }
    }
}

impl HookLayerSummary {
    /// The summary of a layer from which nothing was loaded yet.
    pub fn new(scope: HookScope, path: &str) -> (r: Self)
        ensures
            r.deep_view() == (HookLayerSummaryView {
                scope: scope.deep_view(),
                path: path@,
                checksum: Seq::empty(),
                loaded_hooks: 0,
                skipped_hooks: Seq::empty(),
            }),
    {
        let skipped_hooks: Vec<SkippedHook> = Vec::new();
        proof {
            assert(skipped_hooks.deep_view() =~= Seq::<SkippedHookView>::empty());
        }
        HookLayerSummary {
            scope,
            path: String::from_str(path),
            checksum: String::new(),
            loaded_hooks: 0,
            skipped_hooks,
        }
    }
}

/// A copy of `v`.
pub fn copy_layers(v: &Vec<HookLayerSummary>) -> (r: Vec<HookLayerSummary>)
    ensures
        r.deep_view() == v.deep_view(),
{
    let mut out: Vec<HookLayerSummary> = Vec::new();
    let mut i: usize = 0;
    while i < v.len()
        invariant
            i <= v.len(),
            out@.len() == i,
            forall|j: int| 0 <= j < i ==> (#[trigger] out@[j]).deep_view() == v@[j].deep_view(),
        decreases v.len() - i,
    {
        out.push(v[i].clone());
        i += 1;
    }
    proof {
        assert(out.deep_view() =~= v.deep_view());
    }
    out
}

} // verus!
