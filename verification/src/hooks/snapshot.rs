//! A view of the registry for clients, filtered by event and scope.

use crate::clock::Timestamp;
use crate::hooks::definition::{HookDefinition, HookDefinitionView};
use crate::hooks::events::{event_at, event_index, HookEvent, EVENT_COUNT};
use crate::hooks::layer_summary::{HookLayerSummary, HookLayerSummaryView};
use crate::hooks::registry::{HookRegistry, HookRegistryView};
use crate::hooks::scope::{scope_matches, scope_passes, HookScopeFilter};
use crate::order::{str_lt, text_le};
use crate::text::same_text;
use vstd::prelude::*;

verus! {

#[derive(Clone, Copy, Debug, PartialEq, Eq, Structural)]
pub struct HookListRequest {
    pub event: Option<HookEvent>,
    pub scope: Option<HookScopeFilter>,
}

#[derive(Debug)]
pub struct HookRegistrySnapshot {
    pub events: Vec<(HookEvent, Vec<HookDefinition>)>,
    pub layers: Vec<HookLayerSummary>,
    pub last_loaded: Option<Timestamp>,
}

pub struct HookRegistrySnapshotView {
    pub events: Seq<(HookEvent, Seq<HookDefinitionView>)>,
    pub layers: Seq<HookLayerSummaryView>,
    pub last_loaded: Option<Timestamp>,
}

impl DeepView for HookRegistrySnapshot {
    type V = HookRegistrySnapshotView;

    open spec fn deep_view(&self) -> HookRegistrySnapshotView {
        HookRegistrySnapshotView {
            events: self.events.deep_view(),
            layers: self.layers.deep_view(),
            last_loaded: self.last_loaded,
        }
    }
}

impl Default for HookRegistrySnapshot {
    fn default() -> (r: Self)
        ensures
            r.deep_view() == (HookRegistrySnapshotView {
                events: Seq::empty(),
                layers: Seq::empty(),
                last_loaded: None,
            }),
    {
        let events: Vec<(HookEvent, Vec<HookDefinition>)> = Vec::new();
        let layers: Vec<HookLayerSummary> = Vec::new();
        proof {
            assert(events.deep_view() =~= Seq::<(HookEvent, Seq<HookDefinitionView>)>::empty());
            assert(layers.deep_view() =~= Seq::<HookLayerSummaryView>::empty());
        }
        HookRegistrySnapshot { events, layers, last_loaded: None }
    }
}

/// The position behind the last hook of `s` whose id does not come
/// after that of `d`.
pub open spec fn bound_by_id(s: Seq<HookDefinitionView>, d: HookDefinitionView) -> int
    decreases s.len(),
{
    if s.len() == 0 {
        0
    } else if text_le(s.last().id, d.id) {
        s.len() as int
    } else {
        bound_by_id(s.drop_last(), d)
    }
}

/// The hooks of the first `n` of `s` that pass the scope filter, in
/// ascending order of their ids; hooks of one id stay in the order in
/// which they stand in `s`.
pub open spec fn listed(s: Seq<HookDefinitionView>, scope: Option<HookScopeFilter>, n: int) -> Seq<
    HookDefinitionView,
>
    decreases n,
{
    if n <= 0 {
        Seq::empty()
    } else {
        let before = listed(s, scope, n - 1);
        if scope_passes(scope, s[n - 1].scope) {
            before.insert(bound_by_id(before, s[n - 1]), s[n - 1])
        } else {
            before
        }
    }
}

pub open spec fn event_passes(filter: Option<HookEvent>, e: HookEvent) -> bool {
    match filter {
        None => true,
        Some(f) => f == e,
    }
}

/// The entries for the events up to position `n`: one for each event
/// that passes the filter and has hooks to list.
pub open spec fn listed_events(
    events: Seq<Seq<HookDefinitionView>>,
    request: HookListRequest,
    n: int,
) -> Seq<(HookEvent, Seq<HookDefinitionView>)>
    decreases n,
{
    if n <= 0 {
        Seq::empty()
    } else {
        let before = listed_events(events, request, n - 1);
        let hooks = listed(events[n - 1], request.scope, events[n - 1].len() as int);
        let e = choose|e: HookEvent| event_index(e) == n - 1;
        if event_passes(request.event, e) && hooks.len() > 0 {
            before.push((e, hooks))
        } else {
            before
        }
    }
}

/// The layers among the first `n` that pass the scope filter.
pub open spec fn listed_layers(
    layers: Seq<HookLayerSummaryView>,
    scope: Option<HookScopeFilter>,
    n: int,
) -> Seq<HookLayerSummaryView>
    decreases n,
{
    if n <= 0 {
        Seq::empty()
    } else if scope_passes(scope, layers[n - 1].scope) {
        listed_layers(layers, scope, n - 1).push(layers[n - 1])
    } else {
        listed_layers(layers, scope, n - 1)
    }
}

fn position_by_id(sorted: &Vec<HookDefinition>, d: &HookDefinition) -> (k: usize)
    ensures
        k == bound_by_id(sorted.deep_view(), d.deep_view()),
        k <= sorted.len(),
{
    let mut k: usize = sorted.len();
    proof {
        assert(sorted.deep_view().take(k as int) =~= sorted.deep_view());
    }
    while k > 0
        invariant
            k <= sorted.len(),
            bound_by_id(sorted.deep_view(), d.deep_view()) == bound_by_id(
                sorted.deep_view().take(k as int),
                d.deep_view(),
            ),
        decreases k,
    {
        let x = &sorted[k - 1];
        proof {
            let t = sorted.deep_view().take(k as int);
            assert(t.last() == x.deep_view());
            assert(t.drop_last() =~= sorted.deep_view().take(k - 1));
        }
        if same_text(x.id.as_str(), d.id.as_str()) || str_lt(x.id.as_str(), d.id.as_str()) {
            return k;
        }
        k -= 1;
    }
    k
}

fn list_hooks(hooks: &Vec<HookDefinition>, scope: Option<HookScopeFilter>) -> (r: Vec<
    HookDefinition,
>)
    ensures
        r.deep_view() == listed(hooks.deep_view(), scope, hooks.deep_view().len() as int),
{
    let mut out: Vec<HookDefinition> = Vec::new();
    let mut i: usize = 0;
    proof {
        assert(out.deep_view() =~= listed(hooks.deep_view(), scope, 0));
    }
    while i < hooks.len()
        invariant
            i <= hooks.len(),
            out.deep_view() == listed(hooks.deep_view(), scope, i as int),
        decreases hooks.len() - i,
    {
        let ghost o0 = out.deep_view();
        if scope_matches(scope, &hooks[i].scope) {
            let d = hooks[i].clone();
            let k = position_by_id(&out, &d);
            let ghost dv = d.deep_view();
            out.insert(k, d);
            proof {
                assert(out.deep_view() =~= o0.insert(k as int, dv));
            }
        }
        i += 1;
    }
    out
}

/// What a request lists of a registry: the hooks of each event asked
/// for that pass the scope filter, and the layers that pass it.
pub open spec fn snapshot_of(
    registry: HookRegistryView,
    request: HookListRequest,
) -> HookRegistrySnapshotView {
    HookRegistrySnapshotView {
        events: listed_events(registry.events, request, EVENT_COUNT as int),
        layers: listed_layers(registry.source_layers, request.scope, registry.source_layers.len() as int),
        last_loaded: registry.last_loaded,
    }
}

/// The registry as clients see it: for each event that passes the
/// event filter, in the order in which the events are listed, the hooks
/// that pass the scope filter, in ascending order of their ids; events
/// with nothing to list are left out. The layers are those that pass
/// the scope filter.
pub fn build_hook_registry_snapshot(registry: &HookRegistry, request: &HookListRequest) -> (r:
    HookRegistrySnapshot)
    ensures
        r.deep_view() == snapshot_of(registry.deep_view(), *request),
{
    let mut events: Vec<(HookEvent, Vec<HookDefinition>)> = Vec::new();
    let mut i: usize = 0;
    proof {
        assert(events.deep_view() =~= listed_events(registry.deep_view().events, *request, 0));
    }
    while i < EVENT_COUNT
        invariant
            i <= EVENT_COUNT,
            events.deep_view() == listed_events(registry.deep_view().events, *request, i as int),
        decreases EVENT_COUNT - i,
    {
        let e = event_at(i);
        let ghost chosen = choose|x: HookEvent| event_index(x) == i;
        proof {
            assert(event_index(e) == i);
            assert(chosen == e) by {
                lemma_event_index_injective(chosen, e);
            }
        }
        let passes = match request.event {
            None => true,
            Some(f) => f == e,
        };
        let ghost ev0 = events.deep_view();
        if passes {
            let hooks = list_hooks(registry.hooks_for_event(e), request.scope);
            if hooks.len() > 0 {
                let ghost hv = hooks.deep_view();
                events.push((e, hooks));
                proof {
                    assert(events.deep_view() =~= ev0.push((e, hv)));
                }
            }
        }
        i += 1;
    }
    let source = registry.source_layers();
    let mut layers: Vec<HookLayerSummary> = Vec::new();
    let mut k: usize = 0;
    proof {
        assert(layers.deep_view() =~= listed_layers(source.deep_view(), request.scope, 0));
    }
    while k < source.len()
        invariant
            k <= source.len(),
            layers.deep_view() == listed_layers(source.deep_view(), request.scope, k as int),
        decreases source.len() - k,
    {
        let ghost l0 = layers.deep_view();
        if scope_matches(request.scope, &source[k].scope) {
            layers.push(source[k].clone());
            proof {
                assert(layers.deep_view() =~= l0.push(source.deep_view()[k as int]));
            }
        }
        k += 1;
    }
    HookRegistrySnapshot { events, layers, last_loaded: registry.last_loaded() }
}

pub proof fn lemma_event_index_injective(a: HookEvent, b: HookEvent)
    requires
        event_index(a) == event_index(b),
    ensures
        a == b,
{
}

} // verus!
