//! Sums over the per-outcome pools of a market.

use vstd::prelude::*;

verus! {

/// The sum of all pools in `pools`.
pub open spec fn pool_sum(pools: Seq<nat>) -> nat
    decreases pools.len(),
{
    if pools.len() == 0 {
        0
    } else {
        pools.last() + pool_sum(pools.drop_last())
    }
}

/// The amounts of `raw` as natural numbers.
pub open spec fn amounts(raw: Seq<u64>) -> Seq<nat> {
    Seq::new(raw.len(), |i: int| raw[i] as nat)
}

/// Pools that are all empty sum to nothing.
pub proof fn lemma_pool_sum_of_empty_pools(pools: Seq<nat>)
    requires
        forall|i: int| 0 <= i < pools.len() ==> pools[i] == 0,
    ensures
        pool_sum(pools) == 0,
    decreases pools.len(),
{
    if pools.len() > 0 {
        lemma_pool_sum_of_empty_pools(pools.drop_last());
    }
}

/// Replacing one pool changes the sum by the difference of the two values.
pub proof fn lemma_pool_sum_update(pools: Seq<nat>, index: int, value: nat)
    requires
        0 <= index < pools.len(),
    ensures
        pool_sum(pools.update(index, value)) + pools[index] == pool_sum(pools) + value,
    decreases pools.len(),
{
    let updated = pools.update(index, value);
    if index == pools.len() - 1 {
        assert(updated.drop_last() =~= pools.drop_last());
    } else {
        assert(updated.drop_last() =~= pools.drop_last().update(index, value));
        lemma_pool_sum_update(pools.drop_last(), index, value);
    }
}

/// No single pool exceeds the sum of all pools.
pub proof fn lemma_pool_within_sum(pools: Seq<nat>, index: int)
    requires
        0 <= index < pools.len(),
    ensures
        pools[index] <= pool_sum(pools),
    decreases pools.len(),
{
    if index < pools.len() - 1 {
        lemma_pool_within_sum(pools.drop_last(), index);
    }
}

} // verus!
