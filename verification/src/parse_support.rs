//! Small helpers shared by the readers of command lines and queries.

use vstd::prelude::*;

verus! {

/// `s` without its leading slashes.
pub open spec fn without_slashes(s: Seq<char>) -> Seq<char>
    decreases s.len(),
{
    if s.len() > 0 && s[0] == '/' {
        without_slashes(s.drop_first())
    } else {
        s
    }
}

/// The number of slashes that `v` begins with.
pub fn skip_slashes(v: &Vec<char>) -> (k: usize)
    ensures
        k <= v.len(),
        v@.skip(k as int) == without_slashes(v@),
{
    let mut k: usize = 0;
    proof {
        assert(v@.skip(0) =~= v@);
    }
    while k < v.len() && v[k] == '/'
        invariant
            k <= v.len(),
            without_slashes(v@) == without_slashes(v@.skip(k as int)),
        decreases v.len() - k,
    {
        proof {
            assert(v@.skip(k as int).drop_first() =~= v@.skip(k + 1));
        }
        k += 1;
    }
    proof {
        let s = v@.skip(k as int);
        if s.len() > 0 {
            assert(s[0] == v@[k as int]);
        }
    }
    k
}

} // verus!
