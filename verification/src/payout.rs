//! The payout of a winning wager.

use vstd::prelude::*;

verus! {

/// What a stake on the winning outcome redeems: the share of `total_pool`
/// that `stake` is of `winning_pool`, rounded down. An empty winning pool
/// pays nothing.
pub open spec fn payout(stake: nat, total_pool: nat, winning_pool: nat) -> nat {
    if winning_pool == 0 {
        0
    } else {
        (stake * total_pool) / winning_pool
    }
}

/// A stake that is part of the winning pool never redeems more than the whole
/// pool holds.
pub proof fn lemma_payout_within_total(stake: nat, total_pool: nat, winning_pool: nat)
    requires
        stake <= winning_pool,
    ensures
        payout(stake, total_pool, winning_pool) <= total_pool,
{
    if winning_pool > 0 {
        assert((stake * total_pool) / winning_pool <= total_pool) by (nonlinear_arith)
            requires
                stake <= winning_pool,
                winning_pool > 0,
        ;
    }
}

/// A stake that is the whole winning pool redeems the whole pool.
pub proof fn lemma_sole_winner_takes_all(total_pool: nat, winning_pool: nat)
    requires
        winning_pool > 0,
    ensures
        payout(winning_pool, total_pool, winning_pool) == total_pool,
{
    assert((winning_pool * total_pool) / winning_pool == total_pool) by (nonlinear_arith)
        requires
            winning_pool > 0,
    ;
}

/// Computes [`payout`] in 128 bits, which hold the product of any two pool
/// counters.
pub fn calculate_payout(stake: u64, total_pool: u64, winning_pool: u64) -> (amount: u128)
    ensures
        amount == payout(stake as nat, total_pool as nat, winning_pool as nat),
{
    if winning_pool > 0 {
        assert(stake * total_pool <= u128::MAX) by (nonlinear_arith)
            requires
                stake <= u64::MAX,
                total_pool <= u64::MAX,
        ;
        let product: u128 = (stake as u128) * (total_pool as u128);
        product / (winning_pool as u128)
    } else {
        0
    }
}

} // verus!
