//! Counts how often the commands were loaded.

use vstd::prelude::*;

verus! {

#[derive(Clone, Copy, Debug, PartialEq, Eq, Structural)]
pub struct LoadCounter {
    pub count: u64,
}

impl Default for LoadCounter {
    fn default() -> (r: Self)
        ensures
            r.count == 0,
    {
        LoadCounter { count: 0 }
    }
}

/// Counts one more load. The count wraps around at `u64::MAX`.
pub fn record_load_metrics(counter: &mut LoadCounter)
    ensures
        final(counter).count == (if old(counter).count == u64::MAX {
            0
        } else {
            old(counter).count + 1
        }),
{
    counter.count = counter.count.wrapping_add(1);
}

/// The number of loads counted.
pub fn load_count(counter: &LoadCounter) -> (r: u64)
    ensures
        r == counter.count,
{
    counter.count
}

} // verus!
