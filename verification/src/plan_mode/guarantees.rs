//! What holds of every allow-list, whatever the user lists.

use crate::glob::wildcard_matches;
use crate::plan_mode::allow_list::{
    allow_list_of, any_shell_rule, cleaned, closing_paren, default_entries, distinct, entry_kind,
    shell_argument, shell_prefix, shell_rules_of, tool_rules_of, EntryKind,
};
use crate::text::is_blank;
use vstd::prelude::*;

verus! {

/// Listing more entries never removes one: what `a` alone gives stays
/// in front.
pub proof fn lemma_distinct_keeps_front(a: Seq<Seq<char>>, b: Seq<Seq<char>>)
    ensures
        distinct(a).len() <= distinct(a + b).len(),
        distinct(a + b).take(distinct(a).len() as int) == distinct(a),
    decreases b.len(),
{
    if b.len() == 0 {
        assert(a + b =~= a);
        assert(distinct(a).take(distinct(a).len() as int) =~= distinct(a));
    } else {
        let shorter = b.drop_last();
        lemma_distinct_keeps_front(a, shorter);
        assert((a + b).drop_last() =~= a + shorter);
        assert((a + b).last() == b.last());
        let front = distinct(a + shorter);
        let n = distinct(a).len() as int;
        if !front.contains(b.last()) {
            assert(front.push(b.last()).take(n) =~= front.take(n));
        }
    }
}

/// The shell rules of the front of a list are the front of the shell
/// rules of the list.
pub proof fn lemma_shell_rules_keep_front(raw: Seq<Seq<char>>, n: int)
    requires
        0 <= n <= raw.len(),
    ensures
        shell_rules_of(raw.take(n)).len() <= shell_rules_of(raw).len(),
        shell_rules_of(raw).take(shell_rules_of(raw.take(n)).len() as int) == shell_rules_of(
            raw.take(n),
        ),
    decreases raw.len() - n,
{
    let front = shell_rules_of(raw.take(n));
    if n == raw.len() {
        assert(raw.take(n) =~= raw);
        assert(front.take(front.len() as int) =~= front);
    } else {
        lemma_shell_rules_keep_front(raw, n + 1);
        let next = raw.take(n + 1);
        assert(next.drop_last() =~= raw.take(n));
        let mid = shell_rules_of(next);
        assert(mid.take(front.len() as int) =~= front);
        assert(shell_rules_of(raw).take(front.len() as int) =~= shell_rules_of(raw).take(
            mid.len() as int,
        ).take(front.len() as int));
    }
}

/// The default shell helpers are allowed whatever the user lists: a
/// command that the default allow-list lets through is let through by
/// every allow-list.
pub proof fn lemma_defaults_always_allowed(user: Seq<Seq<char>>, candidates: Seq<Seq<char>>)
    requires
        any_shell_rule(allow_list_of(Seq::empty()).shell_rules, candidates),
    ensures
        any_shell_rule(allow_list_of(user).shell_rules, candidates),
{
    let d = default_entries();
    assert(cleaned(Seq::<Seq<char>>::empty()) =~= Seq::<Seq<char>>::empty());
    assert(d + Seq::<Seq<char>>::empty() =~= d);
    let base = distinct(d);
    let full = distinct(d + cleaned(user));
    lemma_distinct_keeps_front(d, cleaned(user));
    lemma_shell_rules_keep_front(full, base.len() as int);
    let base_rules = shell_rules_of(base);
    let full_rules = shell_rules_of(full);
    assert(full_rules.take(base_rules.len() as int) == base_rules);
    let (i, j) = choose|i: int, j: int|
        0 <= i < base_rules.len() && 0 <= j < candidates.len() && wildcard_matches(
            #[trigger] base_rules[i],
            #[trigger] candidates[j],
        );
    assert(full_rules[i] == full_rules.take(base_rules.len() as int)[i]);
    assert(wildcard_matches(full_rules[i], candidates[j]));
}

/// An entry `shell(..)` whose argument is blank stands for no rule.
pub proof fn lemma_blank_shell_entry_is_ignored(inner: Seq<char>)
    requires
        is_blank(inner),
    ensures
        entry_kind(shell_prefix() + inner + closing_paren()) == EntryKind::Ignored,
{
    let entry = shell_prefix() + inner + closing_paren();
    let p = shell_prefix().len() as int;
    assert(entry.subrange(0, p) =~= shell_prefix());
    let rest = entry.skip(p);
    assert(rest =~= inner + closing_paren());
    assert(rest.subrange(rest.len() - closing_paren().len(), rest.len() as int)
        =~= closing_paren());
    assert(rest.take(rest.len() - closing_paren().len()) =~= inner);
    assert(shell_argument(entry) == Some(inner));
}

/// Adding an entry `shell(..)` with a blank argument to a list of
/// entries changes none of its rules.
pub proof fn lemma_blank_shell_entry_adds_no_rule(raw: Seq<Seq<char>>, inner: Seq<char>)
    requires
        is_blank(inner),
    ensures
        tool_rules_of(raw.push(shell_prefix() + inner + closing_paren())) == tool_rules_of(raw),
        shell_rules_of(raw.push(shell_prefix() + inner + closing_paren())) == shell_rules_of(raw),
{
    lemma_blank_shell_entry_is_ignored(inner);
    let e = shell_prefix() + inner + closing_paren();
    assert(raw.push(e).drop_last() =~= raw);
}

} // verus!
