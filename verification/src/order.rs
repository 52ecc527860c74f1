//! The lexicographic order of texts by code point, which is the order
//! of `str`.

use crate::text::chars_of;
use vstd::prelude::*;

verus! {

/// `a` comes strictly before `b`.
pub open spec fn text_lt(a: Seq<char>, b: Seq<char>) -> bool
    decreases a.len(),
{
    if b.len() == 0 {
        false
    } else if a.len() == 0 {
        true
    } else if a[0] != b[0] {
        a[0] < b[0]
    } else {
        text_lt(a.drop_first(), b.drop_first())
    }
}

/// `a` comes before `b` or equals it.
pub open spec fn text_le(a: Seq<char>, b: Seq<char>) -> bool {
    a == b || text_lt(a, b)
}

pub proof fn lemma_text_lt_irreflexive(a: Seq<char>)
    ensures
        !text_lt(a, a),
    decreases a.len(),
{
    if a.len() > 0 {
        lemma_text_lt_irreflexive(a.drop_first());
    }
}

/// Of two different texts one comes before the other.
pub proof fn lemma_text_lt_total(a: Seq<char>, b: Seq<char>)
    ensures
        a == b || text_lt(a, b) || text_lt(b, a),
        !(text_lt(a, b) && text_lt(b, a)),
    decreases a.len(),
{
    if a.len() == 0 || b.len() == 0 {
        if a.len() == 0 && b.len() == 0 {
            assert(a =~= b);
        }
    } else if a[0] == b[0] {
        lemma_text_lt_total(a.drop_first(), b.drop_first());
        if a.drop_first() == b.drop_first() {
            assert(a =~= seq![a[0]] + a.drop_first());
            assert(b =~= seq![b[0]] + b.drop_first());
        }
    }
}

pub proof fn lemma_text_lt_transitive(a: Seq<char>, b: Seq<char>, c: Seq<char>)
    requires
        text_lt(a, b),
        text_lt(b, c),
    ensures
        text_lt(a, c),
    decreases a.len(),
{
    if a.len() > 0 && a[0] == b[0] && b[0] == c[0] {
        lemma_text_lt_transitive(a.drop_first(), b.drop_first(), c.drop_first());
    }
}

pub proof fn lemma_text_le_transitive(a: Seq<char>, b: Seq<char>, c: Seq<char>)
    requires
        text_le(a, b),
        text_le(b, c),
    ensures
        text_le(a, c),
{
    if a != b && b != c {
        lemma_text_lt_transitive(a, b, c);
    }
}

/// Whether `a` comes strictly before `b`.
pub fn chars_lt(a: &Vec<char>, b: &Vec<char>) -> (r: bool)
    ensures
        r == text_lt(a@, b@),
{
    let mut i: usize = 0;
    proof {
        assert(a@.skip(0) =~= a@);
        assert(b@.skip(0) =~= b@);
    }
    while i < a.len() && i < b.len()
        invariant
            i <= a.len(),
            i <= b.len(),
            text_lt(a@, b@) == text_lt(a@.skip(i as int), b@.skip(i as int)),
        decreases a.len() - i,
    {
        let x = a[i];
        let y = b[i];
        if x != y {
            return x < y;
        }
        proof {
            assert(a@.skip(i as int).drop_first() =~= a@.skip(i + 1));
            assert(b@.skip(i as int).drop_first() =~= b@.skip(i + 1));
        }
        i += 1;
    }
    i < b.len()
}

/// Whether `a` comes strictly before `b`.
pub fn str_lt(a: &str, b: &str) -> (r: bool)
    ensures
        r == text_lt(a@, b@),
{
    let x = chars_of(a);
    let y = chars_of(b);
    chars_lt(&x, &y)
}

/// The position of the first of the ascending texts `s` that does not
/// come before `x`.
pub open spec fn lower_bound(s: Seq<Seq<char>>, x: Seq<char>) -> int
    decreases s.len(),
{
    if s.len() == 0 {
        0
    } else if text_lt(s.last(), x) {
        s.len() as int
    } else {
        lower_bound(s.drop_last(), x)
    }
}

/// The ascending texts `s` with `x` put in its place, unless `x` is
/// among them already.
pub open spec fn with_text(s: Seq<Seq<char>>, x: Seq<char>) -> Seq<Seq<char>> {
    if s.contains(x) {
        s
    } else {
        s.insert(lower_bound(s, x), x)
    }
}

/// The texts of `items` in ascending order, each once.
pub open spec fn sorted_distinct(items: Seq<Seq<char>>) -> Seq<Seq<char>>
    decreases items.len(),
{
    if items.len() == 0 {
        Seq::empty()
    } else {
        with_text(sorted_distinct(items.drop_last()), items.last())
    }
}

/// The texts of `items` in ascending order, each once.
pub fn sort_distinct(items: &Vec<String>) -> (r: Vec<String>)
    ensures
        r.deep_view() == sorted_distinct(items.deep_view()),
{
    let mut out: Vec<String> = Vec::new();
    let mut i: usize = 0;
    proof {
        assert(out.deep_view() =~= sorted_distinct(items.deep_view().take(0)));
    }
    while i < items.len()
        invariant
            i <= items.len(),
            out.deep_view() == sorted_distinct(items.deep_view().take(i as int)),
        decreases items.len() - i,
    {
        let ghost o0 = out.deep_view();
        proof {
            let next = items.deep_view().take(i + 1);
            assert(next.drop_last() =~= items.deep_view().take(i as int));
            assert(next.last() == items.deep_view()[i as int]);
        }
        if !crate::copying::holds_text(&out, items[i].as_str()) {
            let mut k: usize = out.len();
            proof {
                assert(o0.take(k as int) =~= o0);
            }
            while k > 0 && !str_lt(out[k - 1].as_str(), items[i].as_str())
                invariant
                    k <= out.len(),
                    o0 == out.deep_view(),
                    i < items.len(),
                    lower_bound(o0, items.deep_view()[i as int]) == lower_bound(
                        o0.take(k as int),
                        items.deep_view()[i as int],
                    ),
                decreases k,
            {
                proof {
                    let t = o0.take(k as int);
                    assert(t.last() == out@[k - 1]@);
                    assert(t.drop_last() =~= o0.take(k - 1));
                }
                k -= 1;
            }
            proof {
                let t = o0.take(k as int);
                if k > 0 {
                    assert(t.last() == out@[k - 1]@);
                }
            }
            out.insert(k, items[i].clone());
            proof {
                assert(out.deep_view() =~= o0.insert(k as int, items.deep_view()[i as int]));
            }
        }
        i += 1;
    }
    proof {
        assert(items.deep_view().take(items.len() as int) =~= items.deep_view());
    }
    out
}

/// Whether the pair `a` comes strictly before the pair `b`: by the
/// first texts, and by the second where the first are the same.
pub open spec fn pair_lt(a: (Seq<char>, Seq<char>), b: (Seq<char>, Seq<char>)) -> bool {
    text_lt(a.0, b.0) || (a.0 == b.0 && text_lt(a.1, b.1))
}

/// The place for the key `k` among the positions `order`: behind the
/// last position whose key does not come after `k`.
pub open spec fn place_of(
    keys: Seq<(Seq<char>, Seq<char>)>,
    order: Seq<int>,
    k: (Seq<char>, Seq<char>),
) -> int
    decreases order.len(),
{
    if order.len() == 0 {
        0
    } else if !pair_lt(k, keys[order.last()]) {
        order.len() as int
    } else {
        place_of(keys, order.drop_last(), k)
    }
}

/// The first `n` positions of `keys` in ascending order of their keys;
/// positions with the same key stay in their order.
pub open spec fn order_of(keys: Seq<(Seq<char>, Seq<char>)>, n: int) -> Seq<int>
    decreases n,
{
    if n <= 0 {
        Seq::empty()
    } else {
        let before = order_of(keys, n - 1);
        before.insert(place_of(keys, before, keys[n - 1]), n - 1)
    }
}

/// The positions as numbers.
pub open spec fn positions(order: Seq<usize>) -> Seq<int> {
    order.map_values(|i: usize| i as int)
}

fn pair_before(a: &(String, String), b: &(String, String)) -> (r: bool)
    ensures
        r == pair_lt((a.0@, a.1@), (b.0@, b.1@)),
{
    if str_lt(a.0.as_str(), b.0.as_str()) {
        true
    } else if crate::text::same_text(a.0.as_str(), b.0.as_str()) {
        str_lt(a.1.as_str(), b.1.as_str())
    } else {
        false
    }
}

fn place_for(keys: &Vec<(String, String)>, order: &Vec<usize>, i: usize) -> (k: usize)
    requires
        i < keys.len(),
        forall|j: int| 0 <= j < order@.len() ==> (#[trigger] order@[j]) < keys.len(),
    ensures
        k == place_of(keys.deep_view(), positions(order@), keys.deep_view()[i as int]),
        k <= order.len(),
{
    let mut k: usize = order.len();
    proof {
        assert(positions(order@).take(k as int) =~= positions(order@));
    }
    while k > 0
        invariant
            k <= order.len(),
            i < keys.len(),
            forall|j: int| 0 <= j < order@.len() ==> (#[trigger] order@[j]) < keys.len(),
            place_of(keys.deep_view(), positions(order@), keys.deep_view()[i as int]) == place_of(
                keys.deep_view(),
                positions(order@).take(k as int),
                keys.deep_view()[i as int],
            ),
        decreases k,
    {
        let at = order[k - 1];
        proof {
            let t = positions(order@).take(k as int);
            assert(t.last() == at as int);
            assert(t.drop_last() =~= positions(order@).take(k - 1));
            assert(keys.deep_view()[at as int] == (keys@[at as int].0@, keys@[at as int].1@));
            assert(keys.deep_view()[i as int] == (keys@[i as int].0@, keys@[i as int].1@));
        }
        if !pair_before(&keys[i], &keys[at]) {
            return k;
        }
        k -= 1;
    }
    k
}

/// The positions of `keys` in ascending order of their keys (see
/// `order_of`).
pub fn sorted_order(keys: &Vec<(String, String)>) -> (r: Vec<usize>)
    ensures
        positions(r@) == order_of(keys.deep_view(), keys@.len() as int),
        r@.len() == keys@.len(),
        forall|j: int| 0 <= j < r@.len() ==> (#[trigger] r@[j]) < keys@.len(),
{
    let mut out: Vec<usize> = Vec::new();
    let mut i: usize = 0;
    proof {
        assert(positions(out@) =~= order_of(keys.deep_view(), 0));
    }
    while i < keys.len()
        invariant
            i <= keys.len(),
            out@.len() == i,
            positions(out@) == order_of(keys.deep_view(), i as int),
            forall|j: int| 0 <= j < out@.len() ==> (#[trigger] out@[j]) < i,
        decreases keys.len() - i,
    {
        let ghost o0 = out@;
        let k = place_for(keys, &out, i);
        out.insert(k, i);
        proof {
            assert(positions(out@) =~= positions(o0).insert(k as int, i as int));
            assert forall|j: int| 0 <= j < out@.len() implies (#[trigger] out@[j]) < i + 1 by {
                if j < k {
                    assert(out@[j] == o0[j]);
                } else if j > k {
                    assert(out@[j] == o0[j - 1]);
                }
            }
        }
        i += 1;
    }
    out
}

} // verus!
