//! The wagers of a market taken together, and what they redeem.
//!
//! A ledger is the sequence of wagers placed on one market, in the order in
//! which they were recorded. The engine stores no ledger: it is the value
//! over which the laws on whole markets are stated.

use vstd::prelude::*;
use crate::identity::Identity;
use crate::payout::{lemma_sole_winner_takes_all, payout};
use crate::state::{Bet, MarketView};

verus! {

/// The value that the wagers of `ledger` stake on `outcome`.
pub open spec fn staked_on(ledger: Seq<Bet>, outcome: u8) -> nat
    decreases ledger.len(),
{
    if ledger.len() == 0 {
        0
    } else if ledger.last().outcome_index == outcome {
        staked_on(ledger.drop_last(), outcome) + ledger.last().amount as nat
    } else {
        staked_on(ledger.drop_last(), outcome)
    }
}

/// The number of wagers of `ledger` that back `outcome`.
pub open spec fn backers_of(ledger: Seq<Bet>, outcome: u8) -> nat
    decreases ledger.len(),
{
    if ledger.len() == 0 {
        0
    } else if ledger.last().outcome_index == outcome {
        backers_of(ledger.drop_last(), outcome) + 1
    } else {
        backers_of(ledger.drop_last(), outcome)
    }
}

/// The payouts of all wagers of `ledger` that back `outcome`, added up, where
/// `outcome` has won with `winning_pool` staked on it out of `total_pool`.
pub open spec fn payouts_of(ledger: Seq<Bet>, outcome: u8, total_pool: nat, winning_pool: nat) -> nat
    decreases ledger.len(),
{
    if ledger.len() == 0 {
        0
    } else if ledger.last().outcome_index == outcome {
        payouts_of(ledger.drop_last(), outcome, total_pool, winning_pool) + payout(
            ledger.last().amount as nat,
            total_pool,
            winning_pool,
        )
    } else {
        payouts_of(ledger.drop_last(), outcome, total_pool, winning_pool)
    }
}

impl MarketView {
    /// Whether the pools of this market are those of `ledger`: the pool of
    /// each outcome holds what the wagers of `ledger` stake on it.
    pub open spec fn books(self, ledger: Seq<Bet>) -> bool {
        forall|outcome: u8|
            outcome < self.outcome_pools.len() ==> self.outcome_pools[outcome as int]
                == #[trigger] staked_on(ledger, outcome)
    }
}

/// A market that has just been opened books the empty ledger.
pub proof fn lemma_opened_market_books_nothing(
    authority: Identity,
    market_id: nat,
    question: Seq<char>,
    outcomes: Seq<Seq<char>>,
    resolution_time: int,
    min_bet: nat,
    now: int,
)
    ensures
        MarketView::opened(
            authority,
            market_id,
            question,
            outcomes,
            resolution_time,
            min_bet,
            now,
        ).books(Seq::<Bet>::empty()),
{
}

/// A resolution keeps the books: the resolved market books what the market
/// booked before.
pub proof fn lemma_resolution_keeps_books(market: MarketView, ledger: Seq<Bet>, winner: u8)
    requires
        market.books(ledger),
    ensures
        market.resolved_as(winner).books(ledger),
{
}

/// Recording a wager keeps the books: where a market books `ledger`, the
/// market with the wager `bet` books `ledger` with `bet` appended.
pub proof fn lemma_bet_enters_books(market: MarketView, ledger: Seq<Bet>, bet: Bet)
    requires
        market.books(ledger),
        bet.outcome_index < market.outcome_pools.len(),
    ensures
        market.with_bet(bet.outcome_index, bet.amount as nat).books(ledger.push(bet)),
{
    let after = market.with_bet(bet.outcome_index, bet.amount as nat);
    let extended = ledger.push(bet);
    assert(extended.drop_last() =~= ledger);
    assert forall|outcome: u8| outcome < after.outcome_pools.len() implies after.outcome_pools[outcome as int]
        == #[trigger] staked_on(extended, outcome) by {
        assert(market.outcome_pools[outcome as int] == staked_on(ledger, outcome));
    }
}

/// Shares of one pool add up: the shares of two stakes together come to the
/// share of their sum, or to one unit less.
proof fn lemma_payout_of_sum(first: nat, second: nat, total_pool: nat, winning_pool: nat)
    requires
        winning_pool > 0,
    ensures
        payout(first, total_pool, winning_pool) + payout(second, total_pool, winning_pool)
            <= payout(first + second, total_pool, winning_pool),
        payout(first + second, total_pool, winning_pool) <= payout(
            first,
            total_pool,
            winning_pool,
        ) + payout(second, total_pool, winning_pool) + 1,
{
    let p = first * total_pool;
    let q = second * total_pool;
    assert((first + second) * total_pool == p + q) by (nonlinear_arith)
        requires
            p == first * total_pool,
            q == second * total_pool,
    ;
    assert(p / winning_pool + q / winning_pool <= (p + q) / winning_pool && (p + q) / winning_pool
        <= p / winning_pool + q / winning_pool + 1) by (nonlinear_arith)
        requires
            winning_pool > 0,
    ;
}

/// The payouts of the backers of one outcome, measured against the share of
/// all that they have staked together: never more, and short of it by less
/// than one unit for each backer after the first.
proof fn lemma_payouts_against_share(
    ledger: Seq<Bet>,
    outcome: u8,
    total_pool: nat,
    winning_pool: nat,
)
    requires
        winning_pool > 0,
    ensures
        payouts_of(ledger, outcome, total_pool, winning_pool) <= payout(
            staked_on(ledger, outcome),
            total_pool,
            winning_pool,
        ),
        backers_of(ledger, outcome) == 0 ==> payouts_of(ledger, outcome, total_pool, winning_pool)
            == 0 && staked_on(ledger, outcome) == 0,
        backers_of(ledger, outcome) >= 1 ==> payout(
            staked_on(ledger, outcome),
            total_pool,
            winning_pool,
        ) <= payouts_of(ledger, outcome, total_pool, winning_pool) + backers_of(ledger, outcome)
            - 1,
    decreases ledger.len(),
{
    if ledger.len() == 0 {
        assert(payout(0, total_pool, winning_pool) == 0) by (nonlinear_arith)
            requires
                winning_pool > 0,
                payout(0, total_pool, winning_pool) == (0 * total_pool) / winning_pool,
        ;
    } else {
        let earlier = ledger.drop_last();
        lemma_payouts_against_share(earlier, outcome, total_pool, winning_pool);
        if ledger.last().outcome_index == outcome {
            lemma_payout_of_sum(
                staked_on(earlier, outcome),
                ledger.last().amount as nat,
                total_pool,
                winning_pool,
            );
        }
    }
}

/// Conservation of the pool. On a market whose pools are those of `ledger`
/// and whose winning outcome has something staked on it, the payouts of all
/// winning wagers together never exceed the total pool, and fall short of it
/// by at most one unit for each winning wager after the first.
pub proof fn lemma_payouts_conserve_pool(market: MarketView, ledger: Seq<Bet>, winner: u8)
    requires
        market.wf(),
        market.books(ledger),
        market.winning_outcome == Some(winner),
        market.pool_of(winner) > 0,
    ensures
        backers_of(ledger, winner) >= 1,
        payouts_of(ledger, winner, market.total_pool, market.pool_of(winner)) <= market.total_pool,
        market.total_pool <= payouts_of(ledger, winner, market.total_pool, market.pool_of(winner))
            + backers_of(ledger, winner) - 1,
{
    let winning_pool = market.pool_of(winner);
    assert(winning_pool == staked_on(ledger, winner));
    lemma_payouts_against_share(ledger, winner, market.total_pool, winning_pool);
    lemma_sole_winner_takes_all(market.total_pool, winning_pool);
}

} // verus!
