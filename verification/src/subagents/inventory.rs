//! All definitions that were found, resolved by name: which one is
//! active, which ones lost against it, and which ones are invalid.

use crate::order::{lemma_text_lt_total, lemma_text_lt_transitive, text_lt};
use crate::subagents::config::{SubagentConfig, SubagentConfigView};
use crate::subagents::definition::{
    normalized_name, SubagentDefinition, SubagentDefinitionView, SubagentScope,
};
use crate::subagents::record::{record_of, SubagentRecord, SubagentRecordView, SubagentStatus};
use crate::text::{push_str, same_text, string_of};
use vstd::prelude::*;

verus! {

/// A definition that did not become the active one of its name.
#[derive(Debug, PartialEq, Eq)]
pub struct SubagentConflict {
    pub name: String,
    pub losing_scope: SubagentScope,
    pub reason: String,
}

pub struct SubagentConflictView {
    pub name: Seq<char>,
    pub losing_scope: SubagentScope,
    pub reason: Seq<char>,
}

impl DeepView for SubagentConflict {
    type V = SubagentConflictView;

    open spec fn deep_view(&self) -> SubagentConflictView {
        SubagentConflictView {
            name: self.name@,
            losing_scope: self.losing_scope,
            reason: self.reason@,
        }
    }
}

impl Clone for SubagentConflict {
    fn clone(&self) -> (r: Self)
        ensures
            r.deep_view() == self.deep_view(),
    {
        SubagentConflict {
            name: self.name.clone(),
            losing_scope: self.losing_scope,
            reason: self.reason.clone(),
        }
    }
}

/// A note made during discovery. Its view is its message.
#[derive(Debug, PartialEq, Eq)]
pub struct DiscoveryEvent {
    pub message: String,
}

impl DeepView for DiscoveryEvent {
    type V = Seq<char>;

    open spec fn deep_view(&self) -> Seq<char> {
        self.message@
    }
}

impl Clone for DiscoveryEvent {
    fn clone(&self) -> (r: Self)
        ensures
            r.deep_view() == self.deep_view(),
    {
        DiscoveryEvent { message: self.message.clone() }
    }
}

/// The name under which a definition is filed: its normalised name, or
/// the normalised form of its raw name where it has none.
pub open spec fn def_key(d: SubagentDefinitionView) -> Seq<char> {
    if d.name.len() == 0 {
        normalized_name(d.raw_name)
    } else {
        d.name
    }
}

/// The least key among `defs` (which holds at least one definition).
pub open spec fn min_key(defs: Seq<SubagentDefinitionView>) -> Seq<char>
    decreases defs.len(),
{
    if defs.len() <= 1 {
        def_key(defs[0])
    } else {
        let m = min_key(defs.drop_last());
        let k = def_key(defs.last());
        if text_lt(k, m) {
            k
        } else {
            m
        }
    }
}

/// The definitions filed under `k`, in their order.
pub open spec fn with_key(defs: Seq<SubagentDefinitionView>, k: Seq<char>) -> Seq<
    SubagentDefinitionView,
>
    decreases defs.len(),
{
    if defs.len() == 0 {
        Seq::empty()
    } else if def_key(defs.last()) == k {
        with_key(defs.drop_last(), k).push(defs.last())
    } else {
        with_key(defs.drop_last(), k)
    }
}

/// The definitions not filed under `k`, in their order.
pub open spec fn without_key(defs: Seq<SubagentDefinitionView>, k: Seq<char>) -> Seq<
    SubagentDefinitionView,
>
    decreases defs.len(),
{
    if defs.len() == 0 {
        Seq::empty()
    } else if def_key(defs.last()) != k {
        without_key(defs.drop_last(), k).push(defs.last())
    } else {
        without_key(defs.drop_last(), k)
    }
}

/// The definitions of one scope, in their order.
pub open spec fn of_scope(defs: Seq<SubagentDefinitionView>, scope: SubagentScope) -> Seq<
    SubagentDefinitionView,
>
    decreases defs.len(),
{
    if defs.len() == 0 {
        Seq::empty()
    } else if defs.last().scope == scope {
        of_scope(defs.drop_last(), scope).push(defs.last())
    } else {
        of_scope(defs.drop_last(), scope)
    }
}

/// Project definitions first, then user definitions; within a scope the
/// order in which they were given.
pub open spec fn by_precedence(defs: Seq<SubagentDefinitionView>) -> Seq<SubagentDefinitionView> {
    of_scope(defs, SubagentScope::Project) + of_scope(defs, SubagentScope::User)
}

pub open spec fn records_of(defs: Seq<SubagentDefinitionView>, config: SubagentConfigView) -> Seq<
    SubagentRecordView,
> {
    Seq::new(defs.len(), |i: int| record_of(defs[i], config))
}

/// The position of the first active record.
pub open spec fn first_active(records: Seq<SubagentRecordView>) -> Option<int>
    decreases records.len(),
{
    if records.len() == 0 {
        None
    } else {
        match first_active(records.drop_last()) {
            Some(i) => Some(i),
            None => if records.last().status == SubagentStatus::Active {
                Some(records.len() - 1)
            } else {
                None
            },
        }
    }
}

/// Why a record lost: it is invalid, or disabled, or another scope was
/// chosen, or another definition of its own scope was, or nothing was.
pub open spec fn conflict_reason(
    record: SubagentRecordView,
    chosen_scope: Option<SubagentScope>,
) -> Seq<char> {
    if record.status == SubagentStatus::Invalid {
        "invalid definition"@
    } else if record.status == SubagentStatus::Disabled {
        "disabled subagent"@
    } else {
        match chosen_scope {
            Some(scope) => if scope != record.definition.scope {
                "project override"@
            } else {
                "duplicate definition"@
            },
            None => "no active definition available"@,
        }
    }
}

pub open spec fn conflict_of(
    record: SubagentRecordView,
    chosen_scope: Option<SubagentScope>,
) -> SubagentConflictView {
    SubagentConflictView {
        name: record.definition.name,
        losing_scope: record.definition.scope,
        reason: conflict_reason(record, chosen_scope),
    }
}

pub open spec fn chosen_scope_of(
    records: Seq<SubagentRecordView>,
    chosen: Option<int>,
) -> Option<SubagentScope> {
    match chosen {
        Some(i) => Some(records[i].definition.scope),
        None => None,
    }
}

/// The conflicts among the first `n` records: one for each record but
/// the chosen one.
pub open spec fn conflicts_upto(
    records: Seq<SubagentRecordView>,
    chosen: Option<int>,
    n: int,
) -> Seq<SubagentConflictView>
    decreases n,
{
    if n <= 0 {
        Seq::empty()
    } else if chosen == Some(n - 1) {
        conflicts_upto(records, chosen, n - 1)
    } else {
        conflicts_upto(records, chosen, n - 1).push(
            conflict_of(records[n - 1], chosen_scope_of(records, chosen)),
        )
    }
}

/// The invalid ones among the first `n` records.
pub open spec fn invalid_upto(records: Seq<SubagentRecordView>, n: int) -> Seq<SubagentRecordView>
    decreases n,
{
    if n <= 0 {
        Seq::empty()
    } else if records[n - 1].status == SubagentStatus::Invalid {
        invalid_upto(records, n - 1).push(records[n - 1])
    } else {
        invalid_upto(records, n - 1)
    }
}

pub open spec fn disabled_message(name: Seq<char>) -> Seq<char> {
    "subagent '"@ + name + "' skipped because feature is disabled"@
}

/// The notes on the disabled ones among the first `n` records.
pub open spec fn disabled_upto(records: Seq<SubagentRecordView>, n: int) -> Seq<Seq<char>>
    decreases n,
{
    if n <= 0 {
        Seq::empty()
    } else if records[n - 1].status == SubagentStatus::Disabled {
        disabled_upto(records, n - 1).push(disabled_message(records[n - 1].definition.name))
    } else {
        disabled_upto(records, n - 1)
    }
}

pub struct SubagentInventoryView {
    pub subagents: Seq<(Seq<char>, SubagentRecordView)>,
    pub conflicts: Seq<SubagentConflictView>,
    pub discovery_events: Seq<Seq<char>>,
    pub invalid: Seq<SubagentRecordView>,
}

pub open spec fn empty_inventory() -> SubagentInventoryView {
    SubagentInventoryView {
        subagents: Seq::empty(),
        conflicts: Seq::empty(),
        discovery_events: Seq::empty(),
        invalid: Seq::empty(),
    }
}

/// `a` followed by `b`, field by field.
pub open spec fn merged(a: SubagentInventoryView, b: SubagentInventoryView) -> SubagentInventoryView {
    SubagentInventoryView {
        subagents: a.subagents + b.subagents,
        conflicts: a.conflicts + b.conflicts,
        discovery_events: a.discovery_events + b.discovery_events,
        invalid: a.invalid + b.invalid,
    }
}

/// What the records of one name contribute, in their order of
/// precedence: the first active one is the sub-agent of that name, every
/// other one is a conflict.
pub open spec fn group_inventory(
    key: Seq<char>,
    records: Seq<SubagentRecordView>,
) -> SubagentInventoryView {
    let chosen = first_active(records);
    SubagentInventoryView {
        subagents: match chosen {
            Some(i) => seq![(key, records[i])],
            None => Seq::empty(),
        },
        conflicts: conflicts_upto(records, chosen, records.len() as int),
        discovery_events: disabled_upto(records, records.len() as int),
        invalid: invalid_upto(records, records.len() as int),
    }
}

pub proof fn lemma_min_key(defs: Seq<SubagentDefinitionView>)
    requires
        defs.len() > 0,
    ensures
        exists|i: int| 0 <= i < defs.len() && def_key(#[trigger] defs[i]) == min_key(defs),
        forall|j: int| 0 <= j < defs.len() ==> !text_lt(def_key(#[trigger] defs[j]), min_key(defs)),
    decreases defs.len(),
{
    if defs.len() <= 1 {
        crate::order::lemma_text_lt_irreflexive(def_key(defs[0]));
        assert(def_key(defs[0]) == min_key(defs));
    } else {
        let rest = defs.drop_last();
        lemma_min_key(rest);
        let m = min_key(rest);
        let k = def_key(defs.last());
        let w = choose|i: int| 0 <= i < rest.len() && def_key(#[trigger] rest[i]) == m;
        assert(rest[w] == defs[w]);
        if text_lt(k, m) {
            assert(def_key(defs[defs.len() - 1]) == min_key(defs));
            assert forall|j: int| 0 <= j < defs.len() implies !text_lt(
                def_key(#[trigger] defs[j]),
                min_key(defs),
            ) by {
                if j < rest.len() {
                    assert(rest[j] == defs[j]);
                    if text_lt(def_key(defs[j]), k) {
                        lemma_text_lt_transitive(def_key(defs[j]), k, m);
                    }
                } else {
                    crate::order::lemma_text_lt_irreflexive(k);
                }
            }
        } else {
            assert(def_key(defs[w]) == min_key(defs));
            assert forall|j: int| 0 <= j < defs.len() implies !text_lt(
                def_key(#[trigger] defs[j]),
                min_key(defs),
            ) by {
                if j < rest.len() {
                    assert(rest[j] == defs[j]);
                }
            }
        }
    }
}

pub proof fn lemma_without_key_shrinks(defs: Seq<SubagentDefinitionView>, k: Seq<char>)
    ensures
        without_key(defs, k).len() <= defs.len(),
        (exists|i: int| 0 <= i < defs.len() && def_key(#[trigger] defs[i]) == k) ==> without_key(
            defs,
            k,
        ).len() < defs.len(),
        forall|j: int|
            0 <= j < without_key(defs, k).len() ==> def_key(#[trigger] without_key(defs, k)[j])
                != k && exists|i: int|
                0 <= i < defs.len() && defs[i] == without_key(defs, k)[j],
    decreases defs.len(),
{
    if defs.len() > 0 {
        let rest = defs.drop_last();
        lemma_without_key_shrinks(rest, k);
        if exists|i: int| 0 <= i < defs.len() && def_key(#[trigger] defs[i]) == k {
            let i = choose|i: int| 0 <= i < defs.len() && def_key(#[trigger] defs[i]) == k;
            if i < rest.len() {
                assert(rest[i] == defs[i]);
            }
        }
        let out = without_key(defs, k);
        assert forall|j: int| 0 <= j < out.len() implies def_key(#[trigger] out[j]) != k
            && exists|i: int| 0 <= i < defs.len() && defs[i] == out[j] by {
            if j < without_key(rest, k).len() {
                let i = choose|i: int|
                    0 <= i < rest.len() && rest[i] == without_key(rest, k)[j];
                assert(defs[i] == out[j]);
            } else {
                assert(defs[defs.len() - 1] == out[j]);
            }
        }
    }
}

/// The inventory of `defs` under an enabled configuration: names are
/// taken in ascending order, and each contributes as `group_inventory`
/// says.
pub open spec fn inventory_of(
    defs: Seq<SubagentDefinitionView>,
    config: SubagentConfigView,
) -> SubagentInventoryView
    decreases defs.len(),
{
    if defs.len() == 0 {
        empty_inventory()
    } else {
        let k = min_key(defs);
        proof {
            lemma_min_key(defs);
            lemma_without_key_shrinks(defs, k);
        }
        merged(
            group_inventory(k, records_of(by_precedence(with_key(defs, k)), config)),
            inventory_of(without_key(defs, k), config),
        )
    }
}

/// The inventory that `definitions` give under `config`. With the
/// feature off it is empty but for one note that says so.
pub open spec fn inventory_from(
    config: SubagentConfigView,
    definitions: Seq<SubagentDefinitionView>,
) -> SubagentInventoryView {
    if !config.enabled {
        SubagentInventoryView {
            subagents: Seq::empty(),
            conflicts: Seq::empty(),
            discovery_events: seq!["subagents feature disabled via configuration"@],
            invalid: Seq::empty(),
        }
    } else {
        inventory_of(definitions, config)
    }
}

/// The active sub-agents by name, in ascending order of their names.
#[derive(Debug)]
pub struct SubagentMap {
    entries: Vec<(String, SubagentRecord)>,
}

/// The names in `entries` ascend strictly.
pub open spec fn names_ascend(entries: Seq<(Seq<char>, SubagentRecordView)>) -> bool {
    forall|i: int, j: int|
        0 <= i < j < entries.len() ==> text_lt((#[trigger] entries[i]).0, (#[trigger] entries[j]).0)
}

/// The record filed under `name`, if any.
pub open spec fn lookup(
    entries: Seq<(Seq<char>, SubagentRecordView)>,
    name: Seq<char>,
) -> Option<SubagentRecordView>
    decreases entries.len(),
{
    if entries.len() == 0 {
        None
    } else if entries[0].0 == name {
        Some(entries[0].1)
    } else {
        lookup(entries.drop_first(), name)
    }
}

impl DeepView for SubagentMap {
    type V = Seq<(Seq<char>, SubagentRecordView)>;

    closed spec fn deep_view(&self) -> Seq<(Seq<char>, SubagentRecordView)> {
        self.entries.deep_view()
    }
}

impl SubagentMap {
    #[verifier::type_invariant]
    spec fn ordered(self) -> bool {
        names_ascend(self.entries.deep_view())
    }

    pub fn new() -> (r: Self)
        ensures
            r.deep_view() == Seq::<(Seq<char>, SubagentRecordView)>::empty(),
    {
        let entries: Vec<(String, SubagentRecord)> = Vec::new();
        proof {
            assert(entries.deep_view() =~= Seq::<(Seq<char>, SubagentRecordView)>::empty());
        }
        SubagentMap { entries }
    }

    fn from_entries(entries: Vec<(String, SubagentRecord)>) -> (r: Self)
        requires
            names_ascend(entries.deep_view()),
        ensures
            r.deep_view() == entries.deep_view(),
    {
        SubagentMap { entries }
    }

    /// The number of sub-agents. Their names ascend strictly.
    pub fn len(&self) -> (r: usize)
        ensures
            r == self.deep_view().len(),
            names_ascend(self.deep_view()),
    {
        proof {
            use_type_invariant(self);
        }
        self.entries.len()
    }

    pub fn is_empty(&self) -> (r: bool)
        ensures
            r == (self.deep_view().len() == 0),
    {
        self.entries.len() == 0
    }

    /// The record of the sub-agent called `name`.
    pub fn get(&self, name: &str) -> (r: Option<&SubagentRecord>)
        ensures
            r.deep_view() == lookup(self.deep_view(), name@),
    {
        let mut i: usize = 0;
        proof {
            assert(self.entries.deep_view().skip(0) =~= self.entries.deep_view());
        }
        while i < self.entries.len()
            invariant
                i <= self.entries.len(),
                lookup(self.entries.deep_view(), name@) == lookup(
                    self.entries.deep_view().skip(i as int),
                    name@,
                ),
            decreases self.entries.len() - i,
        {
            proof {
                assert(self.entries.deep_view().skip(i as int).drop_first()
                    =~= self.entries.deep_view().skip(i + 1));
            }
            if same_text(self.entries[i].0.as_str(), name) {
                return Some(&self.entries[i].1);
            }
            i += 1;
        }
        None
    }

    pub fn contains_key(&self, name: &str) -> (r: bool)
        ensures
            r == (lookup(self.deep_view(), name@) is Some),
    {
        self.get(name).is_some()
    }

    /// The name at position `i`.
    pub fn name_at(&self, i: usize) -> (r: &String)
        requires
            i < self.deep_view().len(),
        ensures
            r@ == self.deep_view()[i as int].0,
    {
        &self.entries[i].0
    }

    /// The record at position `i`.
    pub fn record_at(&self, i: usize) -> (r: &SubagentRecord)
        requires
            i < self.deep_view().len(),
        ensures
            r.deep_view() == self.deep_view()[i as int].1,
    {
        &self.entries[i].1
    }

    /// The records, in ascending order of their names.
    pub fn values(&self) -> (r: Vec<&SubagentRecord>)
        ensures
            r.deep_view().len() == self.deep_view().len(),
            forall|i: int|
                0 <= i < r.deep_view().len() ==> #[trigger] r.deep_view()[i] == self.deep_view()[i].1,
    {
        let mut out: Vec<&SubagentRecord> = Vec::new();
        let mut i: usize = 0;
        while i < self.entries.len()
            invariant
                i <= self.entries.len(),
                out@.len() == i,
                forall|j: int|
                    0 <= j < i ==> (#[trigger] out@[j]).deep_view()
                        == self.entries.deep_view()[j].1,
            decreases self.entries.len() - i,
        {
            out.push(&self.entries[i].1);
            i += 1;
        }
        out
    }
}

impl Clone for SubagentMap {
    fn clone(&self) -> (r: Self)
        ensures
            r.deep_view() == self.deep_view(),
    {
        proof {
            use_type_invariant(self);
        }
        let mut entries: Vec<(String, SubagentRecord)> = Vec::new();
        let mut i: usize = 0;
        while i < self.entries.len()
            invariant
                i <= self.entries.len(),
                entries@.len() == i,
                forall|j: int|
                    0 <= j < i ==> (#[trigger] entries@[j]).deep_view()
                        == self.entries@[j].deep_view(),
            decreases self.entries.len() - i,
        {
            entries.push((self.entries[i].0.clone(), self.entries[i].1.clone()));
            i += 1;
        }
        proof {
            assert(entries.deep_view() =~= self.entries.deep_view());
        }
        SubagentMap::from_entries(entries)
    }
}

#[derive(Debug)]
pub struct SubagentInventory {
    pub subagents: SubagentMap,
    pub conflicts: Vec<SubagentConflict>,
    pub discovery_events: Vec<DiscoveryEvent>,
    pub invalid_records: Vec<SubagentRecord>,
}

impl DeepView for SubagentInventory {
    type V = SubagentInventoryView;

    open spec fn deep_view(&self) -> SubagentInventoryView {
        SubagentInventoryView {
            subagents: self.subagents.deep_view(),
            conflicts: self.conflicts.deep_view(),
            discovery_events: self.discovery_events.deep_view(),
            invalid: self.invalid_records.deep_view(),
        }
    }
}

pub proof fn lemma_merged_associative(
    a: SubagentInventoryView,
    b: SubagentInventoryView,
    c: SubagentInventoryView,
)
    ensures
        merged(merged(a, b), c) == merged(a, merged(b, c)),
{
    assert(merged(merged(a, b), c).subagents =~= merged(a, merged(b, c)).subagents);
    assert(merged(merged(a, b), c).conflicts =~= merged(a, merged(b, c)).conflicts);
    assert(merged(merged(a, b), c).discovery_events =~= merged(a, merged(b, c)).discovery_events);
    assert(merged(merged(a, b), c).invalid =~= merged(a, merged(b, c)).invalid);
}

pub proof fn lemma_merged_empty(a: SubagentInventoryView)
    ensures
        merged(a, empty_inventory()) == a,
        merged(empty_inventory(), a) == a,
{
    assert(merged(a, empty_inventory()).subagents =~= a.subagents);
    assert(merged(a, empty_inventory()).conflicts =~= a.conflicts);
    assert(merged(a, empty_inventory()).discovery_events =~= a.discovery_events);
    assert(merged(a, empty_inventory()).invalid =~= a.invalid);
    assert(merged(empty_inventory(), a).subagents =~= a.subagents);
    assert(merged(empty_inventory(), a).conflicts =~= a.conflicts);
    assert(merged(empty_inventory(), a).discovery_events =~= a.discovery_events);
    assert(merged(empty_inventory(), a).invalid =~= a.invalid);
}

/// The name under which `d` is filed.
pub fn key_of(d: &SubagentDefinition) -> (k: String)
    ensures
        k@ == def_key(d.deep_view()),
{
    if d.name.as_str().is_empty() {
        SubagentDefinition::normalize_name(d.raw_name.as_str())
    } else {
        d.name.clone()
    }
}

fn least_key(defs: &Vec<SubagentDefinition>) -> (k: String)
    requires
        defs.len() > 0,
    ensures
        k@ == min_key(defs.deep_view()),
{
    let mut best = key_of(&defs[0]);
    let mut i: usize = 1;
    proof {
        assert(defs.deep_view().take(1)[0] == defs.deep_view()[0]);
    }
    while i < defs.len()
        invariant
            1 <= i <= defs.len(),
            best@ == min_key(defs.deep_view().take(i as int)),
        decreases defs.len() - i,
    {
        let k = key_of(&defs[i]);
        proof {
            let next = defs.deep_view().take(i + 1);
            assert(next.drop_last() =~= defs.deep_view().take(i as int));
            assert(next.last() == defs.deep_view()[i as int]);
        }
        if crate::order::str_lt(k.as_str(), best.as_str()) {
            best = k;
        }
        i += 1;
    }
    proof {
        assert(defs.deep_view().take(defs.len() as int) =~= defs.deep_view());
    }
    best
}

fn split_by_key(defs: &Vec<SubagentDefinition>, k: &str) -> (r: (
    Vec<SubagentDefinition>,
    Vec<SubagentDefinition>,
))
    ensures
        r.0.deep_view() == with_key(defs.deep_view(), k@),
        r.1.deep_view() == without_key(defs.deep_view(), k@),
{
    let mut group: Vec<SubagentDefinition> = Vec::new();
    let mut rest: Vec<SubagentDefinition> = Vec::new();
    let mut i: usize = 0;
    proof {
        assert(group.deep_view() =~= with_key(defs.deep_view().take(0), k@));
        assert(rest.deep_view() =~= without_key(defs.deep_view().take(0), k@));
    }
    while i < defs.len()
        invariant
            i <= defs.len(),
            group.deep_view() == with_key(defs.deep_view().take(i as int), k@),
            rest.deep_view() == without_key(defs.deep_view().take(i as int), k@),
        decreases defs.len() - i,
    {
        let key = key_of(&defs[i]);
        let ghost g0 = group.deep_view();
        let ghost r0 = rest.deep_view();
        proof {
            let next = defs.deep_view().take(i + 1);
            assert(next.drop_last() =~= defs.deep_view().take(i as int));
            assert(next.last() == defs.deep_view()[i as int]);
        }
        if same_text(key.as_str(), k) {
            group.push(defs[i].clone());
            proof {
                assert(group.deep_view() =~= g0.push(defs.deep_view()[i as int]));
            }
        } else {
            rest.push(defs[i].clone());
            proof {
                assert(rest.deep_view() =~= r0.push(defs.deep_view()[i as int]));
            }
        }
        i += 1;
    }
    proof {
        assert(defs.deep_view().take(defs.len() as int) =~= defs.deep_view());
    }
    (group, rest)
}

fn select_scope(
    defs: &Vec<SubagentDefinition>,
    scope: SubagentScope,
    out: &mut Vec<SubagentDefinition>,
)
    ensures
        final(out).deep_view() == old(out).deep_view() + of_scope(defs.deep_view(), scope),
{
    let mut i: usize = 0;
    proof {
        assert(out.deep_view() =~= old(out).deep_view() + of_scope(
            defs.deep_view().take(0),
            scope,
        ));
    }
    while i < defs.len()
        invariant
            i <= defs.len(),
            out.deep_view() == old(out).deep_view() + of_scope(
                defs.deep_view().take(i as int),
                scope,
            ),
        decreases defs.len() - i,
    {
        let ghost o0 = out.deep_view();
        proof {
            let next = defs.deep_view().take(i + 1);
            assert(next.drop_last() =~= defs.deep_view().take(i as int));
            assert(next.last() == defs.deep_view()[i as int]);
        }
        if defs[i].scope == scope {
            out.push(defs[i].clone());
            proof {
                assert(out.deep_view() =~= o0.push(defs.deep_view()[i as int]));
                assert(o0.push(defs.deep_view()[i as int]) =~= old(out).deep_view() + of_scope(
                    defs.deep_view().take(i + 1),
                    scope,
                ));
            }
        }
        i += 1;
    }
    proof {
        assert(defs.deep_view().take(defs.len() as int) =~= defs.deep_view());
    }
}

fn order_group(group: &Vec<SubagentDefinition>) -> (r: Vec<SubagentDefinition>)
    ensures
        r.deep_view() == by_precedence(group.deep_view()),
{
    let mut out: Vec<SubagentDefinition> = Vec::new();
    proof {
        assert(out.deep_view() =~= Seq::<SubagentDefinitionView>::empty());
    }
    select_scope(group, SubagentScope::Project, &mut out);
    proof {
        assert(out.deep_view() =~= of_scope(group.deep_view(), SubagentScope::Project));
    }
    select_scope(group, SubagentScope::User, &mut out);
    out
}

fn build_records(defs: &Vec<SubagentDefinition>, config: &SubagentConfig) -> (r: Vec<
    SubagentRecord,
>)
    ensures
        r.deep_view() == records_of(defs.deep_view(), config.deep_view()),
{
    let mut out: Vec<SubagentRecord> = Vec::new();
    let mut i: usize = 0;
    while i < defs.len()
        invariant
            i <= defs.len(),
            out@.len() == i,
            forall|j: int|
                0 <= j < i ==> (#[trigger] out@[j]).deep_view() == record_of(
                    defs.deep_view()[j],
                    config.deep_view(),
                ),
        decreases defs.len() - i,
    {
        out.push(SubagentRecord::from_definition(defs[i].clone(), config));
        i += 1;
    }
    proof {
        assert(out.deep_view() =~= records_of(defs.deep_view(), config.deep_view()));
    }
    out
}

fn find_first_active(records: &Vec<SubagentRecord>) -> (r: Option<usize>)
    ensures
        match r {
            Some(i) => first_active(records.deep_view()) == Some(i as int) && i < records.len(),
            None => first_active(records.deep_view()) is None,
        },
{
    let mut i: usize = 0;
    proof {
        assert(first_active(records.deep_view().take(0)) is None);
    }
    while i < records.len()
        invariant
            i <= records.len(),
            first_active(records.deep_view().take(i as int)) is None,
        decreases records.len() - i,
    {
        proof {
            let next = records.deep_view().take(i + 1);
            assert(next.drop_last() =~= records.deep_view().take(i as int));
            assert(next.last() == records.deep_view()[i as int]);
        }
        if records[i].is_active() {
            proof {
                lemma_first_active_extends(records.deep_view(), i + 1);
            }
            return Some(i);
        }
        i += 1;
    }
    proof {
        assert(records.deep_view().take(records.len() as int) =~= records.deep_view());
    }
    None
}

/// Once a prefix holds an active record, the first active record of
/// the whole is that of the prefix.
pub proof fn lemma_first_active_extends(records: Seq<SubagentRecordView>, n: int)
    requires
        0 <= n <= records.len(),
        first_active(records.take(n)) is Some,
    ensures
        first_active(records) == first_active(records.take(n)),
    decreases records.len() - n,
{
    if n < records.len() {
        let next = records.take(n + 1);
        assert(next.drop_last() =~= records.take(n));
        lemma_first_active_extends(records, n + 1);
    } else {
        assert(records.take(n) =~= records);
    }
}

fn reason_for(record: &SubagentRecord, chosen_scope: Option<SubagentScope>) -> (r: String)
    ensures
        r@ == conflict_reason(record.deep_view(), chosen_scope),
{
    if record.is_invalid() {
        String::from_str("invalid definition")
    } else if matches!(record.status, SubagentStatus::Disabled) {
        String::from_str("disabled subagent")
    } else {
        match chosen_scope {
            Some(scope) => if scope != record.definition.scope {
                String::from_str("project override")
            } else {
                String::from_str("duplicate definition")
            },
            None => String::from_str("no active definition available"),
        }
    }
}

fn disabled_note(name: &str) -> (r: DiscoveryEvent)
    ensures
        r.deep_view() == disabled_message(name@),
{
    let mut text: Vec<char> = Vec::new();
    push_str(&mut text, "subagent '");
    push_str(&mut text, name);
    push_str(&mut text, "' skipped because feature is disabled");
    proof {
        assert(text@ =~= disabled_message(name@));
    }
    DiscoveryEvent { message: string_of(&text) }
}

/// Files the records of one name into the running lists.
fn absorb_group(
    key: String,
    records: &Vec<SubagentRecord>,
    entries: &mut Vec<(String, SubagentRecord)>,
    conflicts: &mut Vec<SubagentConflict>,
    events: &mut Vec<DiscoveryEvent>,
    invalid: &mut Vec<SubagentRecord>,
)
    ensures
        final(entries).deep_view() == old(entries).deep_view() + group_inventory(
            key@,
            records.deep_view(),
        ).subagents,
        final(conflicts).deep_view() == old(conflicts).deep_view() + group_inventory(
            key@,
            records.deep_view(),
        ).conflicts,
        final(events).deep_view() == old(events).deep_view() + group_inventory(
            key@,
            records.deep_view(),
        ).discovery_events,
        final(invalid).deep_view() == old(invalid).deep_view() + group_inventory(
            key@,
            records.deep_view(),
        ).invalid,
{
    let chosen = find_first_active(records);
    let ghost spec_chosen = first_active(records.deep_view());
    let ghost rs = records.deep_view();
    let chosen_scope: Option<SubagentScope> = match chosen {
        Some(i) => Some(records[i].definition.scope),
        None => None,
    };
    proof {
        assert(chosen_scope == chosen_scope_of(rs, spec_chosen));
    }
    let ghost e0 = entries.deep_view();
    match chosen {
        Some(i) => {
            entries.push((key, records[i].clone()));
            proof {
                assert(entries.deep_view() =~= e0 + seq![(key@, rs[i as int])]);
            }
        },
        None => {
            proof {
                assert(entries.deep_view() =~= e0 + Seq::<(Seq<char>, SubagentRecordView)>::empty());
            }
        },
    }
    let mut idx: usize = 0;
    proof {
        assert(conflicts.deep_view() =~= old(conflicts).deep_view() + conflicts_upto(
            rs,
            spec_chosen,
            0,
        ));
        assert(events.deep_view() =~= old(events).deep_view() + disabled_upto(rs, 0));
        assert(invalid.deep_view() =~= old(invalid).deep_view() + invalid_upto(rs, 0));
    }
    while idx < records.len()
        invariant
            idx <= records.len(),
            rs == records.deep_view(),
            spec_chosen == first_active(rs),
            chosen_scope == chosen_scope_of(rs, spec_chosen),
            match chosen {
                Some(i) => spec_chosen == Some(i as int),
                None => spec_chosen is None,
            },
            conflicts.deep_view() == old(conflicts).deep_view() + conflicts_upto(
                rs,
                spec_chosen,
                idx as int,
            ),
            events.deep_view() == old(events).deep_view() + disabled_upto(rs, idx as int),
            invalid.deep_view() == old(invalid).deep_view() + invalid_upto(rs, idx as int),
        decreases records.len() - idx,
    {
        let record = &records[idx];
        let ghost c0 = conflicts.deep_view();
        let ghost ev0 = events.deep_view();
        let ghost i0 = invalid.deep_view();
        match record.status {
            SubagentStatus::Invalid => {
                invalid.push(record.clone());
                proof {
                    assert(invalid.deep_view() =~= i0.push(rs[idx as int]));
                    assert(i0.push(rs[idx as int]) =~= old(invalid).deep_view() + invalid_upto(
                        rs,
                        idx + 1,
                    ));
                }
            },
            SubagentStatus::Disabled => {
                events.push(disabled_note(record.definition.name.as_str()));
                proof {
                    let m = disabled_message(rs[idx as int].definition.name);
                    assert(events.deep_view() =~= ev0.push(m));
                    assert(ev0.push(m) =~= old(events).deep_view() + disabled_upto(rs, idx + 1));
                }
            },
            SubagentStatus::Active => {},
        }
        let is_chosen = match chosen {
            Some(i) => i == idx,
            None => false,
        };
        if !is_chosen {
            let reason = reason_for(record, chosen_scope);
            conflicts.push(
                SubagentConflict {
                    name: record.definition.name.clone(),
                    losing_scope: record.definition.scope,
                    reason,
                },
            );
            proof {
                let c = conflict_of(rs[idx as int], chosen_scope);
                assert(conflicts.deep_view() =~= c0.push(c));
                assert(c0.push(c) =~= old(conflicts).deep_view() + conflicts_upto(
                    rs,
                    spec_chosen,
                    idx + 1,
                ));
            }
        }
        idx += 1;
    }
}

/// Every name listed comes before the name of every definition.
pub open spec fn entries_precede(
    entries: Seq<(Seq<char>, SubagentRecordView)>,
    defs: Seq<SubagentDefinitionView>,
) -> bool {
    forall|i: int, j: int|
        0 <= i < entries.len() && 0 <= j < defs.len() ==> text_lt(
            (#[trigger] entries[i]).0,
            def_key(#[trigger] defs[j]),
        )
}

impl SubagentInventory {
    /// The definitions that carry validation errors, in the order in
    /// which their names were resolved.
    pub fn invalid(&self) -> (r: &Vec<SubagentRecord>)
        ensures
            r.deep_view() == self.deep_view().invalid,
    {
        &self.invalid_records
    }

    /// An inventory with nothing in it.
    pub fn empty() -> (r: Self)
        ensures
            r.deep_view() == empty_inventory(),
    {
        let conflicts: Vec<SubagentConflict> = Vec::new();
        let discovery_events: Vec<DiscoveryEvent> = Vec::new();
        let invalid_records: Vec<SubagentRecord> = Vec::new();
        proof {
            assert(conflicts.deep_view() =~= Seq::<SubagentConflictView>::empty());
            assert(discovery_events.deep_view() =~= Seq::<Seq<char>>::empty());
            assert(invalid_records.deep_view() =~= Seq::<SubagentRecordView>::empty());
        }
        SubagentInventory {
            subagents: SubagentMap::new(),
            conflicts,
            discovery_events,
            invalid_records,
        }
    }

    /// Resolves `definitions` by name. With the feature off nothing is
    /// resolved and one note says so. Otherwise names are taken in
    /// ascending order; under each name project definitions go before
    /// user definitions, the first active one becomes the sub-agent of
    /// that name and every other one is recorded as a conflict.
    pub fn from_definitions(config: &SubagentConfig, definitions: Vec<SubagentDefinition>) -> (r:
        Self)
        ensures
            r.deep_view() == inventory_from(config.deep_view(), definitions.deep_view()),
    {
        let mut entries: Vec<(String, SubagentRecord)> = Vec::new();
        let mut conflicts: Vec<SubagentConflict> = Vec::new();
        let mut events: Vec<DiscoveryEvent> = Vec::new();
        let mut invalid: Vec<SubagentRecord> = Vec::new();
        proof {
            assert(entries.deep_view() =~= Seq::<(Seq<char>, SubagentRecordView)>::empty());
            assert(conflicts.deep_view() =~= Seq::<SubagentConflictView>::empty());
            assert(events.deep_view() =~= Seq::<Seq<char>>::empty());
            assert(invalid.deep_view() =~= Seq::<SubagentRecordView>::empty());
        }
        if !config.enabled {
            events.push(
                DiscoveryEvent {
                    message: String::from_str("subagents feature disabled via configuration"),
                },
            );
            proof {
                assert(events.deep_view() =~= seq![
                    "subagents feature disabled via configuration"@,
                ]);
            }
            return SubagentInventory {
                subagents: SubagentMap::from_entries(entries),
                conflicts,
                discovery_events: events,
                invalid_records: invalid,
            };
        }
        let ghost cfg = config.deep_view();
        let ghost all = definitions.deep_view();
        let mut remaining = definitions;
        proof {
            lemma_merged_empty(inventory_of(all, cfg));
        }
        while remaining.len() > 0
            invariant
                cfg == config.deep_view(),
                names_ascend(entries.deep_view()),
                entries_precede(entries.deep_view(), remaining.deep_view()),
                merged(
                    SubagentInventoryView {
                        subagents: entries.deep_view(),
                        conflicts: conflicts.deep_view(),
                        discovery_events: events.deep_view(),
                        invalid: invalid.deep_view(),
                    },
                    inventory_of(remaining.deep_view(), cfg),
                ) == inventory_of(all, cfg),
            decreases remaining.len(),
        {
            let ghost before = SubagentInventoryView {
                subagents: entries.deep_view(),
                conflicts: conflicts.deep_view(),
                discovery_events: events.deep_view(),
                invalid: invalid.deep_view(),
            };
            let ghost rem = remaining.deep_view();
            let key = least_key(&remaining);
            let (group, rest) = split_by_key(&remaining, key.as_str());
            let ordered = order_group(&group);
            let records = build_records(&ordered, config);
            let ghost grp = group_inventory(key@, records.deep_view());
            proof {
                lemma_min_key(rem);
                lemma_without_key_shrinks(rem, key@);
                assert(inventory_of(rem, cfg) == merged(grp, inventory_of(rest.deep_view(), cfg)));
                lemma_merged_associative(before, grp, inventory_of(rest.deep_view(), cfg));
            }
            absorb_group(key, &records, &mut entries, &mut conflicts, &mut events, &mut invalid);
            proof {
                let after = entries.deep_view();
                let old_entries = before.subagents;
                let k = min_key(rem);
                // the names still ascend, and all of them precede what is left
                assert forall|i: int, j: int| 0 <= i < j < after.len() implies text_lt(
                    (#[trigger] after[i]).0,
                    (#[trigger] after[j]).0,
                ) by {
                    if j < old_entries.len() {
                        assert(after[i] == old_entries[i]);
                        assert(after[j] == old_entries[j]);
                    } else {
                        assert(after[i] == old_entries[i]);
                        assert(after[j].0 == k);
                        let w = choose|w: int| 0 <= w < rem.len() && def_key(#[trigger] rem[w]) == k;
                        assert(text_lt(old_entries[i].0, def_key(rem[w])));
                    }
                }
                assert forall|i: int, j: int|
                    0 <= i < after.len() && 0 <= j < rest.deep_view().len() implies text_lt(
                    (#[trigger] after[i]).0,
                    def_key(#[trigger] rest.deep_view()[j]),
                ) by {
                    let d = rest.deep_view()[j];
                    let src = choose|s: int| 0 <= s < rem.len() && rem[s] == d;
                    if i < old_entries.len() {
                        assert(after[i] == old_entries[i]);
                        assert(text_lt(old_entries[i].0, def_key(rem[src])));
                    } else {
                        assert(after[i].0 == k);
                        assert(def_key(d) != k);
                        assert(!text_lt(def_key(rem[src]), k));
                        lemma_text_lt_total(k, def_key(d));
                    }
                }
            }
            remaining = rest;
        }
        proof {
            lemma_merged_empty(
                SubagentInventoryView {
                    subagents: entries.deep_view(),
                    conflicts: conflicts.deep_view(),
                    discovery_events: events.deep_view(),
                    invalid: invalid.deep_view(),
                },
            );
        }
        SubagentInventory {
            subagents: SubagentMap::from_entries(entries),
            conflicts,
            discovery_events: events,
            invalid_records: invalid,
        }
    }
}

} // verus!
