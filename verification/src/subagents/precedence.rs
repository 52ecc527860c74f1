//! What the inventory guarantees where a project and a user define a
//! sub-agent of the same name.

use crate::order::lemma_text_lt_irreflexive;
use crate::subagents::config::SubagentConfigView;
use crate::subagents::definition::{SubagentDefinitionView, SubagentScope};
use crate::subagents::inventory::{
    by_precedence, conflict_of, conflicts_upto, def_key, first_active, group_inventory, inventory_from, inventory_of, invalid_upto, min_key, of_scope, records_of, with_key, without_key, SubagentConflictView,
};
use crate::subagents::record::{record_of, SubagentRecordView, SubagentStatus};
use vstd::prelude::*;

verus! {

/// `defs` holds `p` and `u` and nothing else, in either order.
pub open spec fn is_pair(
    defs: Seq<SubagentDefinitionView>,
    p: SubagentDefinitionView,
    u: SubagentDefinitionView,
) -> bool {
    defs == seq![p, u] || defs == seq![u, p]
}

proof fn lemma_pair_group(
    defs: Seq<SubagentDefinitionView>,
    p: SubagentDefinitionView,
    u: SubagentDefinitionView,
)
    requires
        is_pair(defs, p, u),
        p.scope == SubagentScope::Project,
        u.scope == SubagentScope::User,
        def_key(p) == def_key(u),
    ensures
        min_key(defs) == def_key(p),
        by_precedence(with_key(defs, def_key(p))) == seq![p, u],
        without_key(defs, def_key(p)) == Seq::<SubagentDefinitionView>::empty(),
{
    let k = def_key(p);
    lemma_text_lt_irreflexive(k);
    let one = defs.drop_last();
    assert(one.len() == 1);
    assert(one.drop_last() =~= Seq::<SubagentDefinitionView>::empty());
    assert(min_key(one) == k);
    assert(min_key(defs) == k);
    // grouping keeps both
    assert(with_key(one.drop_last(), k) =~= Seq::<SubagentDefinitionView>::empty());
    assert(with_key(one, k) =~= seq![one[0]]);
    assert(with_key(defs, k) =~= defs);
    assert(without_key(one.drop_last(), k) =~= Seq::<SubagentDefinitionView>::empty());
    assert(without_key(one, k) =~= Seq::<SubagentDefinitionView>::empty());
    assert(without_key(defs, k) =~= Seq::<SubagentDefinitionView>::empty());
    // ordering by scope
    let g = defs;
    assert(of_scope(one.drop_last(), SubagentScope::Project) =~= Seq::<
        SubagentDefinitionView,
    >::empty());
    assert(of_scope(one.drop_last(), SubagentScope::User) =~= Seq::<
        SubagentDefinitionView,
    >::empty());
    if defs == seq![p, u] {
        assert(one[0] == p);
        assert(g.last() == u);
        assert(of_scope(one, SubagentScope::Project) =~= seq![p]);
        assert(of_scope(one, SubagentScope::User) =~= Seq::<SubagentDefinitionView>::empty());
        assert(of_scope(g, SubagentScope::Project) =~= seq![p]);
        assert(of_scope(g, SubagentScope::User) =~= seq![u]);
    } else {
        assert(one[0] == u);
        assert(g.last() == p);
        assert(of_scope(one, SubagentScope::Project) =~= Seq::<SubagentDefinitionView>::empty());
        assert(of_scope(one, SubagentScope::User) =~= seq![u]);
        assert(of_scope(g, SubagentScope::Project) =~= seq![p]);
        assert(of_scope(g, SubagentScope::User) =~= seq![u]);
    }
    assert(by_precedence(with_key(defs, k)) =~= seq![p, u]);
}

proof fn lemma_pair_inventory(
    config: SubagentConfigView,
    defs: Seq<SubagentDefinitionView>,
    p: SubagentDefinitionView,
    u: SubagentDefinitionView,
)
    requires
        is_pair(defs, p, u),
        p.scope == SubagentScope::Project,
        u.scope == SubagentScope::User,
        def_key(p) == def_key(u),
    ensures
        inventory_of(defs, config) == group_inventory(
            def_key(p),
            seq![record_of(p, config), record_of(u, config)],
        ),
{
    lemma_pair_group(defs, p, u);
    let k = def_key(p);
    let rs = records_of(seq![p, u], config);
    assert(rs =~= seq![record_of(p, config), record_of(u, config)]);
    let rest = inventory_of(Seq::<SubagentDefinitionView>::empty(), config);
    crate::subagents::inventory::lemma_merged_empty(group_inventory(k, rs));
    assert(defs.len() == 2);
    assert(inventory_of(defs, config) == crate::subagents::inventory::merged(
        group_inventory(k, rs),
        rest,
    ));
}

/// Where a project and a user both give a valid definition of one
/// name, the project's is the active one, and the user's is recorded
/// once, as a conflict with the reason "project override".
pub proof fn lemma_project_overrides_user(
    config: SubagentConfigView,
    defs: Seq<SubagentDefinitionView>,
    p: SubagentDefinitionView,
    u: SubagentDefinitionView,
)
    requires
        config.enabled,
        is_pair(defs, p, u),
        p.scope == SubagentScope::Project,
        u.scope == SubagentScope::User,
        def_key(p) == def_key(u),
        p.validation_errors.len() == 0,
        u.validation_errors.len() == 0,
    ensures
        inventory_from(config, defs).subagents == seq![(def_key(p), record_of(p, config))],
        inventory_from(config, defs).conflicts == seq![
            SubagentConflictView {
                name: u.name,
                losing_scope: SubagentScope::User,
                reason: "project override"@,
            },
        ],
        inventory_from(config, defs).invalid == Seq::<SubagentRecordView>::empty(),
{
    lemma_pair_inventory(config, defs, p, u);
    let rp = record_of(p, config);
    let ru = record_of(u, config);
    let rs = seq![rp, ru];
    assert(rp.status == SubagentStatus::Active);
    assert(ru.status == SubagentStatus::Active);
    let one = rs.drop_last();
    assert(one.len() == 1);
    assert(one.drop_last() =~= Seq::<SubagentRecordView>::empty());
    assert(first_active(one.drop_last()) is None);
    assert(one.last() == rp);
    assert(first_active(one) == Some(0int));
    assert(first_active(rs) == Some(0int));
    let chosen = Some(0int);
    assert(conflicts_upto(rs, chosen, 0) =~= Seq::<SubagentConflictView>::empty());
    assert(conflicts_upto(rs, chosen, 1) =~= Seq::<SubagentConflictView>::empty());
    assert(conflicts_upto(rs, chosen, 2) =~= seq![
        conflict_of(ru, Some(SubagentScope::Project)),
    ]);
    assert(invalid_upto(rs, 0) =~= Seq::<SubagentRecordView>::empty());
    assert(invalid_upto(rs, 1) =~= Seq::<SubagentRecordView>::empty());
    assert(invalid_upto(rs, 2) =~= Seq::<SubagentRecordView>::empty());
    assert(inventory_from(config, defs).conflicts =~= seq![
        SubagentConflictView {
            name: u.name,
            losing_scope: SubagentScope::User,
            reason: "project override"@,
        },
    ]);
}

/// Where the project's definition of a name is invalid and the user's
/// is valid, the user's is the active one; the project's is recorded as
/// a conflict with the reason "invalid definition" and listed among the
/// invalid definitions.
pub proof fn lemma_invalid_project_falls_back(
    config: SubagentConfigView,
    defs: Seq<SubagentDefinitionView>,
    p: SubagentDefinitionView,
    u: SubagentDefinitionView,
)
    requires
        config.enabled,
        is_pair(defs, p, u),
        p.scope == SubagentScope::Project,
        u.scope == SubagentScope::User,
        def_key(p) == def_key(u),
        p.validation_errors.len() > 0,
        u.validation_errors.len() == 0,
    ensures
        inventory_from(config, defs).subagents == seq![(def_key(p), record_of(u, config))],
        inventory_from(config, defs).conflicts == seq![
            SubagentConflictView {
                name: p.name,
                losing_scope: SubagentScope::Project,
                reason: "invalid definition"@,
            },
        ],
        inventory_from(config, defs).invalid == seq![record_of(p, config)],
{
    lemma_pair_inventory(config, defs, p, u);
    let rp = record_of(p, config);
    let ru = record_of(u, config);
    let rs = seq![rp, ru];
    assert(rp.status == SubagentStatus::Invalid);
    assert(ru.status == SubagentStatus::Active);
    let one = rs.drop_last();
    assert(one.len() == 1);
    assert(one.drop_last() =~= Seq::<SubagentRecordView>::empty());
    assert(first_active(one.drop_last()) is None);
    assert(one.last() == rp);
    assert(first_active(one) is None);
    assert(rs.last() == ru);
    assert(first_active(rs) == Some(1int));
    let chosen = Some(1int);
    assert(conflicts_upto(rs, chosen, 0) =~= Seq::<SubagentConflictView>::empty());
    assert(conflicts_upto(rs, chosen, 1) =~= seq![conflict_of(rp, Some(SubagentScope::User))]);
    assert(conflicts_upto(rs, chosen, 2) =~= seq![conflict_of(rp, Some(SubagentScope::User))]);
    assert(invalid_upto(rs, 0) =~= Seq::<SubagentRecordView>::empty());
    assert(invalid_upto(rs, 1) =~= seq![rp]);
    assert(invalid_upto(rs, 2) =~= seq![rp]);
    assert(inventory_from(config, defs).conflicts =~= seq![
        SubagentConflictView {
            name: p.name,
            losing_scope: SubagentScope::Project,
            reason: "invalid definition"@,
        },
    ]);
}

} // verus!
