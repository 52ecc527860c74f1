//! Copies of strings and of collections of strings, with what the copy
//! holds stated over views.

use vstd::prelude::*;

verus! {

/// A copy of `s`.
pub fn copy_string(s: &String) -> (r: String)
    ensures
        r@ == s@,
{
    s.clone()
}

/// A copy of `o`.
pub fn copy_opt_string(o: &Option<String>) -> (r: Option<String>)
    ensures
        r.deep_view() == o.deep_view(),
{
    match o {
        Some(s) => Some(s.clone()),
        None => None,
    }
}

/// A copy of `v`.
pub fn copy_strings(v: &Vec<String>) -> (r: Vec<String>)
    ensures
        r.deep_view() == v.deep_view(),
{
    let mut r: Vec<String> = Vec::new();
    let mut i: usize = 0;
    while i < v.len()
        invariant
            i <= v.len(),
            r@.len() == i,
            forall|j: int| 0 <= j < i ==> (#[trigger] r@[j])@ == v@[j]@,
        decreases v.len() - i,
    {
        r.push(v[i].clone());
        i += 1;
    }
    proof {
        assert(r.deep_view() =~= v.deep_view());
    }
    r
}

/// Whether `v` holds a string with the characters of `item`.
pub fn holds_text(v: &Vec<String>, item: &str) -> (r: bool)
    ensures
        r == v.deep_view().contains(item@),
{
    let mut i: usize = 0;
    while i < v.len()
        invariant
            i <= v.len(),
            forall|j: int| 0 <= j < i ==> v.deep_view()[j] != item@,
        decreases v.len() - i,
    {
        if crate::text::same_text(v[i].as_str(), item) {
            proof {
                assert(v.deep_view()[i as int] == item@);
            }
            return true;
        }
        i += 1;
    }
    false
}

} // verus!
