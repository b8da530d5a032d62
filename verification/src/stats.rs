//! Process-wide operation counters and the order in which they may move.

use vstd::prelude::*;

verus! {

/// Counters of successful operations since the gateway was created.
///
/// Every mutating gateway operation promises `stats_le(old, new)` in its
/// contract, so along any sequence of calls the counters never decrease.
#[derive(Clone, Copy, PartialEq, Eq, Structural, Debug)]
pub struct Stats {
    pub total_connections: u64,
    pub total_syncs: u64,
    pub total_transforms: u64,
    pub bytes_relayed: u64,
}

/// Pointwise order on counters: `a` is at most `b` in every field.
pub open spec fn stats_le(a: Stats, b: Stats) -> bool {
    &&& a.total_connections <= b.total_connections
    &&& a.total_syncs <= b.total_syncs
    &&& a.total_transforms <= b.total_transforms
    &&& a.bytes_relayed <= b.bytes_relayed
}

impl Stats {
    /// Fresh counters, all zero.
    pub fn new() -> (r: Stats)
        ensures
            r.total_connections == 0,
            r.total_syncs == 0,
            r.total_transforms == 0,
            r.bytes_relayed == 0,
    {
        Stats { total_connections: 0, total_syncs: 0, total_transforms: 0, bytes_relayed: 0 }
    }
}

/// The counter order is reflexive: a read-only call leaves the counters where
/// they were.
pub proof fn lemma_stats_le_refl(a: Stats)
    ensures
        stats_le(a, a),
{
}

/// The counter order composes: if one stretch of calls takes the counters
/// from `a` to `b` and a later stretch from `b` to `c`, the whole run is
/// non-decreasing. Together with the `stats_le` clause on every mutating
/// operation this gives monotonicity across any sequence of calls.
pub proof fn lemma_stats_le_trans(a: Stats, b: Stats, c: Stats)
    requires
        stats_le(a, b),
        stats_le(b, c),
    ensures
        stats_le(a, c),
{
}

} // verus!
