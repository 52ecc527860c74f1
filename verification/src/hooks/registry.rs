//! The hooks of all layers, by event, in order of precedence.

use crate::clock::Timestamp;
use crate::hooks::definition::{copy_definitions, HookDefinition, HookDefinitionView};
use crate::hooks::events::{event_index, event_order, HookEvent, EVENT_COUNT};
use crate::hooks::layer_summary::{copy_layers, HookLayerSummary, HookLayerSummaryView};
use crate::hooks::scope::{precedence_rank, rank_of};
use crate::order::{
    lemma_text_le_transitive, lemma_text_lt_total, str_lt, text_le, text_lt,
};
use crate::text::same_text;
use vstd::prelude::*;

verus! {

/// `a` does not come after `b`: its scope ranks lower, or the scopes
/// rank alike and its id does not come after that of `b`.
pub open spec fn hook_le(a: HookDefinitionView, b: HookDefinitionView) -> bool {
    rank_of(a.scope) < rank_of(b.scope) || (rank_of(a.scope) == rank_of(b.scope) && text_le(
        a.id,
        b.id,
    ))
}

/// Every hook comes no later than those behind it.
pub open spec fn in_precedence_order(s: Seq<HookDefinitionView>) -> bool {
    forall|i: int, j: int| 0 <= i < j < s.len() ==> hook_le(#[trigger] s[i], #[trigger] s[j])
}

/// The position behind the last hook of `s` that does not come after
/// `d`.
pub open spec fn upper_bound(s: Seq<HookDefinitionView>, d: HookDefinitionView) -> int
    decreases s.len(),
{
    if s.len() == 0 {
        0
    } else if hook_le(s.last(), d) {
        s.len() as int
    } else {
        upper_bound(s.drop_last(), d)
    }
}

/// `s` with `d` placed behind the hooks that do not come after it.
pub open spec fn placed(s: Seq<HookDefinitionView>, d: HookDefinitionView) -> Seq<
    HookDefinitionView,
> {
    s.insert(upper_bound(s, d), d)
}

/// The buckets after the first `n` of `defs` were placed, each into
/// the bucket of its event.
pub open spec fn placed_all(
    buckets: Seq<Seq<HookDefinitionView>>,
    defs: Seq<HookDefinitionView>,
    n: int,
) -> Seq<Seq<HookDefinitionView>>
    decreases n,
{
    if n <= 0 {
        buckets
    } else {
        let before = placed_all(buckets, defs, n - 1);
        let d = defs[n - 1];
        let e = event_index(d.event);
        before.update(e, placed(before[e], d))
    }
}

pub proof fn lemma_hook_le_total(a: HookDefinitionView, b: HookDefinitionView)
    ensures
        hook_le(a, b) || hook_le(b, a),
{
    lemma_text_lt_total(a.id, b.id);
}

pub proof fn lemma_hook_le_transitive(
    a: HookDefinitionView,
    b: HookDefinitionView,
    c: HookDefinitionView,
)
    requires
        hook_le(a, b),
        hook_le(b, c),
    ensures
        hook_le(a, c),
{
    if rank_of(a.scope) == rank_of(b.scope) && rank_of(b.scope) == rank_of(c.scope) {
        lemma_text_le_transitive(a.id, b.id, c.id);
    }
}

pub proof fn lemma_upper_bound(s: Seq<HookDefinitionView>, d: HookDefinitionView)
    requires
        in_precedence_order(s),
    ensures
        0 <= upper_bound(s, d) <= s.len(),
        forall|i: int| 0 <= i < upper_bound(s, d) ==> hook_le(#[trigger] s[i], d),
        forall|i: int| upper_bound(s, d) <= i < s.len() ==> !hook_le(#[trigger] s[i], d),
    decreases s.len(),
{
    if s.len() == 0 {
    } else if hook_le(s.last(), d) {
        assert forall|i: int| 0 <= i < s.len() implies hook_le(#[trigger] s[i], d) by {
            if i < s.len() - 1 {
                lemma_hook_le_transitive(s[i], s[s.len() - 1], d);
            }
        }
    } else {
        let t = s.drop_last();
        assert forall|i: int, j: int| 0 <= i < j < t.len() implies hook_le(
            #[trigger] t[i],
            #[trigger] t[j],
        ) by {
            assert(t[i] == s[i] && t[j] == s[j]);
        }
        lemma_upper_bound(t, d);
        let k = upper_bound(t, d);
        assert forall|i: int| 0 <= i < k implies hook_le(#[trigger] s[i], d) by {
            assert(t[i] == s[i]);
        }
        assert forall|i: int| k <= i < s.len() implies !hook_le(#[trigger] s[i], d) by {
            if i < t.len() {
                assert(t[i] == s[i]);
            }
        }
    }
}

/// Placing a hook keeps the order of precedence.
pub proof fn lemma_placed_in_order(s: Seq<HookDefinitionView>, d: HookDefinitionView)
    requires
        in_precedence_order(s),
    ensures
        in_precedence_order(placed(s, d)),
        placed(s, d).len() == s.len() + 1,
{
    lemma_upper_bound(s, d);
    let k = upper_bound(s, d);
    let p = placed(s, d);
    assert forall|i: int, j: int| 0 <= i < j < p.len() implies hook_le(
        #[trigger] p[i],
        #[trigger] p[j],
    ) by {
        if j < k {
            assert(p[i] == s[i] && p[j] == s[j]);
        } else if j == k {
            assert(p[i] == s[i]);
        } else if i == k {
            assert(p[j] == s[j - 1]);
            lemma_hook_le_total(s[j - 1], d);
        } else if i < k {
            assert(p[i] == s[i] && p[j] == s[j - 1]);
        } else {
            assert(p[i] == s[i - 1] && p[j] == s[j - 1]);
        }
    }
}

/// Where no two hooks of a bucket share scope rank and id, hooks of
/// one scope rank ascend strictly by id.
pub proof fn lemma_strictly_ascending(s: Seq<HookDefinitionView>, i: int, j: int)
    requires
        in_precedence_order(s),
        0 <= i < j < s.len(),
        rank_of(s[i].scope) == rank_of(s[j].scope),
        s[i].id != s[j].id,
    ensures
        text_lt(s[i].id, s[j].id),
{
    assert(hook_le(s[i], s[j]));
}

/// In every bucket in order of precedence, managed policies come
/// before projects and projects before the local user.
pub proof fn lemma_scopes_ascend(s: Seq<HookDefinitionView>, i: int, j: int)
    requires
        in_precedence_order(s),
        0 <= i < j < s.len(),
    ensures
        rank_of(s[i].scope) <= rank_of(s[j].scope),
{
    assert(hook_le(s[i], s[j]));
}

pub struct HookRegistryView {
    pub events: Seq<Seq<HookDefinitionView>>,
    pub last_loaded: Option<Timestamp>,
    pub source_layers: Seq<HookLayerSummaryView>,
}

/// The views of the buckets.
pub open spec fn bucket_views(buckets: Seq<Vec<HookDefinition>>) -> Seq<Seq<HookDefinitionView>> {
    Seq::new(buckets.len(), |i: int| buckets[i].deep_view())
}

/// There is one bucket for each event, and each is in order of
/// precedence.
pub open spec fn well_ordered(events: Seq<Seq<HookDefinitionView>>) -> bool {
    &&& events.len() == EVENT_COUNT
    &&& forall|e: int| 0 <= e < events.len() ==> in_precedence_order(#[trigger] events[e])
}

#[derive(Debug)]
pub struct HookRegistry {
    buckets: Vec<Vec<HookDefinition>>,
    last_loaded: Option<Timestamp>,
    source_layers: Vec<HookLayerSummary>,
}

impl DeepView for HookRegistry {
    type V = HookRegistryView;

    closed spec fn deep_view(&self) -> HookRegistryView {
        HookRegistryView {
            events: bucket_views(self.buckets@),
            last_loaded: self.last_loaded,
            source_layers: self.source_layers.deep_view(),
        }
    }
}

pub open spec fn empty_buckets() -> Seq<Seq<HookDefinitionView>> {
    Seq::new(EVENT_COUNT as nat, |i: int| Seq::<HookDefinitionView>::empty())
}

/// The total number of hooks in the buckets up to `n`.
pub open spec fn total_upto(events: Seq<Seq<HookDefinitionView>>, n: int) -> int
    decreases n,
{
    if n <= 0 {
        0
    } else {
        total_upto(events, n - 1) + events[n - 1].len()
    }
}

fn position_for(bucket: &Vec<HookDefinition>, d: &HookDefinition) -> (k: usize)
    ensures
        k == upper_bound(bucket.deep_view(), d.deep_view()),
        k <= bucket.len(),
{
    let mut k: usize = bucket.len();
    proof {
        assert(bucket.deep_view().take(k as int) =~= bucket.deep_view());
    }
    while k > 0
        invariant
            k <= bucket.len(),
            upper_bound(bucket.deep_view(), d.deep_view()) == upper_bound(
                bucket.deep_view().take(k as int),
                d.deep_view(),
            ),
        decreases k,
    {
        let x = &bucket[k - 1];
        proof {
            let t = bucket.deep_view().take(k as int);
            assert(t.last() == x.deep_view());
            assert(t.drop_last() =~= bucket.deep_view().take(k - 1));
        }
        let rx = precedence_rank(&x.scope);
        let rd = precedence_rank(&d.scope);
        let le = rx < rd || (rx == rd && (same_text(x.id.as_str(), d.id.as_str()) || str_lt(
            x.id.as_str(),
            d.id.as_str(),
        )));
        if le {
            return k;
        }
        k -= 1;
    }
    k
}

impl HookRegistry {
    #[verifier::type_invariant]
    spec fn ordered(self) -> bool {
        well_ordered(bucket_views(self.buckets@))
    }

    /// A registry without hooks and without layers, never loaded.
    pub fn new() -> (r: Self)
        ensures
            r.deep_view() == (HookRegistryView {
                events: empty_buckets(),
                last_loaded: None,
                source_layers: Seq::empty(),
            }),
    {
        let mut buckets: Vec<Vec<HookDefinition>> = Vec::new();
        let mut i: usize = 0;
        while i < EVENT_COUNT
            invariant
                i <= EVENT_COUNT,
                buckets@.len() == i,
                forall|j: int| 0 <= j < i ==> (#[trigger] buckets@[j])@.len() == 0,
            decreases EVENT_COUNT - i,
        {
            buckets.push(Vec::new());
            i += 1;
        }
        let source_layers: Vec<HookLayerSummary> = Vec::new();
        proof {
            assert(bucket_views(buckets@) =~= empty_buckets()) by {
                assert forall|j: int| 0 <= j < EVENT_COUNT implies #[trigger] bucket_views(
                    buckets@,
                )[j] =~= Seq::<HookDefinitionView>::empty() by {
                    assert(buckets@[j]@.len() == 0);
                }
            }
            assert(source_layers.deep_view() =~= Seq::<HookLayerSummaryView>::empty());
        }
        HookRegistry { buckets, last_loaded: None, source_layers }
    }

    /// A registry of the given hooks, loaded at `loaded_at` from the
    /// given layers.
    pub fn with_layers(
        definitions: Vec<HookDefinition>,
        layer_summaries: Vec<HookLayerSummary>,
        loaded_at: Timestamp,
    ) -> (r: Self)
        ensures
            r.deep_view() == (HookRegistryView {
                events: placed_all(
                    empty_buckets(),
                    definitions.deep_view(),
                    definitions.deep_view().len() as int,
                ),
                last_loaded: Some(loaded_at),
                source_layers: layer_summaries.deep_view(),
            }),
    {
        let empty = HookRegistry::new();
        let HookRegistry { buckets, last_loaded: _, source_layers: _ } = empty;
        let registry = HookRegistry {
            buckets,
            last_loaded: Some(loaded_at),
            source_layers: layer_summaries,
        };
        registry.inserted(&definitions)
    }

    /// This registry with each of `definitions` placed.
    fn inserted(self, definitions: &Vec<HookDefinition>) -> (r: Self)
        ensures
            r.deep_view() == (HookRegistryView {
                events: placed_all(
                    self.deep_view().events,
                    definitions.deep_view(),
                    definitions.deep_view().len() as int,
                ),
                ..self.deep_view()
            }),
    {
        proof {
            use_type_invariant(&self);
        }
        let ghost start = bucket_views(self.buckets@);
        let ghost defs = definitions.deep_view();
        let HookRegistry { buckets, last_loaded, source_layers } = self;
        let mut buckets = buckets;
        let mut i: usize = 0;
        while i < definitions.len()
            invariant
                i <= definitions.len(),
                defs == definitions.deep_view(),
                well_ordered(bucket_views(buckets@)),
                bucket_views(buckets@) == placed_all(start, defs, i as int),
            decreases definitions.len() - i,
        {
            let d = definitions[i].clone();
            let e = event_order(d.event);
            let ghost before = bucket_views(buckets@);
            let ghost dv = d.deep_view();
            proof {
                assert(before[e as int] == buckets@[e as int].deep_view());
                lemma_placed_in_order(before[e as int], dv);
                lemma_upper_bound(before[e as int], dv);
            }
            let k = position_for(&buckets[e], &d);
            let ghost raw = buckets@;
            let mut bucket = buckets.remove(e);
            bucket.insert(k, d);
            proof {
                assert(bucket.deep_view() =~= placed(before[e as int], dv));
            }
            buckets.insert(e, bucket);
            proof {
                assert(buckets@ =~= raw.update(e as int, bucket));
                let after = bucket_views(buckets@);
                assert(after =~= before.update(e as int, placed(before[e as int], dv)));
                assert forall|x: int| 0 <= x < after.len() implies in_precedence_order(
                    #[trigger] after[x],
                ) by {
                    if x != e {
                        assert(after[x] == before[x]);
                    }
                }
            }
            i += 1;
        }
        HookRegistry { buckets, last_loaded, source_layers }
    }

    /// Places each hook into the bucket of its event, behind the hooks
    /// that do not come after it: by scope (managed policy, project,
    /// local user), then by id; among hooks of one scope and id, the
    /// one placed earlier stays in front.
    pub fn insert(&mut self, definitions: Vec<HookDefinition>)
        ensures
            final(self).deep_view() == (HookRegistryView {
                events: placed_all(
                    old(self).deep_view().events,
                    definitions.deep_view(),
                    definitions.deep_view().len() as int,
                ),
                ..old(self).deep_view()
            }),
    {
        let mut current = HookRegistry::new();
        std::mem::swap(self, &mut current);
        *self = current.inserted(&definitions);
    }

    /// The hooks for `event`, in order of precedence: managed policies
    /// before projects before the local user, and within a scope in
    /// ascending order of their ids.
    pub fn hooks_for_event(&self, event: HookEvent) -> (r: &Vec<HookDefinition>)
        ensures
            r.deep_view() == self.deep_view().events[event_index(event)],
            in_precedence_order(r.deep_view()),
            well_ordered(self.deep_view().events),
    {
        proof {
            use_type_invariant(self);
        }
        let e = event_order(event);
        proof {
            assert(bucket_views(self.buckets@)[e as int] == self.buckets@[e as int].deep_view());
        }
        &self.buckets[e]
    }

    /// The number of hooks, or `usize::MAX` where there are more.
    pub fn len(&self) -> (r: usize)
        ensures
            r == total_upto(self.deep_view().events, EVENT_COUNT as int) || (r == usize::MAX
                && total_upto(self.deep_view().events, EVENT_COUNT as int) > usize::MAX),
    {
        proof {
            use_type_invariant(self);
        }
        let mut total: usize = 0;
        let mut exceeded = false;
        let mut i: usize = 0;
        while i < EVENT_COUNT
            invariant
                i <= EVENT_COUNT,
                self.buckets@.len() == EVENT_COUNT,
                !exceeded ==> total == total_upto(bucket_views(self.buckets@), i as int),
                exceeded ==> total_upto(bucket_views(self.buckets@), i as int) > usize::MAX,
            decreases EVENT_COUNT - i,
        {
            proof {
                assert(bucket_views(self.buckets@)[i as int].len() == self.buckets@[i as int]@.len());
            }
            if !exceeded {
                match total.checked_add(self.buckets[i].len()) {
                    Some(t) => {
                        total = t;
                    },
                    None => {
                        exceeded = true;
                    },
                }
            }
            i += 1;
        }
        if exceeded {
            usize::MAX
        } else {
            total
        }
    }

    /// Whether the registry holds no hook.
    pub fn is_empty(&self) -> (r: bool)
        ensures
            r == (forall|e: int|
                0 <= e < EVENT_COUNT ==> (#[trigger] self.deep_view().events[e]).len() == 0),
    {
        proof {
            use_type_invariant(self);
        }
        let mut i: usize = 0;
        while i < EVENT_COUNT
            invariant
                i <= EVENT_COUNT,
                self.buckets@.len() == EVENT_COUNT,
                forall|e: int|
                    0 <= e < i ==> (#[trigger] bucket_views(self.buckets@)[e]).len() == 0,
            decreases EVENT_COUNT - i,
        {
            proof {
                assert(bucket_views(self.buckets@)[i as int].len() == self.buckets@[i as int]@.len());
            }
            if self.buckets[i].len() > 0 {
                proof {
                    assert(self.deep_view().events[i as int].len() > 0);
                }
                return false;
            }
            i += 1;
        }
        true
    }

    /// When the registry was loaded.
    pub fn last_loaded(&self) -> (r: Option<Timestamp>)
        ensures
            r == self.deep_view().last_loaded,
    {
        self.last_loaded
    }

    /// The summaries of the layers the registry was loaded from.
    pub fn source_layers(&self) -> (r: &Vec<HookLayerSummary>)
        ensures
            r.deep_view() == self.deep_view().source_layers,
    {
        &self.source_layers
    }
}

impl Default for HookRegistry {
    fn default() -> (r: Self)
        ensures
            r.deep_view() == (HookRegistryView {
                events: empty_buckets(),
                last_loaded: None,
                source_layers: Seq::empty(),
            }),
    {
        HookRegistry::new()
    }
}

impl Clone for HookRegistry {
    fn clone(&self) -> (r: Self)
        ensures
            r.deep_view() == self.deep_view(),
    {
        proof {
            use_type_invariant(self);
        }
        let mut buckets: Vec<Vec<HookDefinition>> = Vec::new();
        let mut i: usize = 0;
        while i < self.buckets.len()
            invariant
                i <= self.buckets.len(),
                buckets@.len() == i,
                forall|j: int|
                    0 <= j < i ==> (#[trigger] buckets@[j]).deep_view()
                        == self.buckets@[j].deep_view(),
            decreases self.buckets.len() - i,
        {
            buckets.push(copy_definitions(&self.buckets[i]));
            i += 1;
        }
        proof {
            assert(bucket_views(buckets@) =~= bucket_views(self.buckets@));
        }
        HookRegistry {
            buckets,
            last_loaded: self.last_loaded,
            source_layers: copy_layers(&self.source_layers),
        }
    }
}

} // verus!
