//! The rules of the engine, stated on mathematical values.
//!
//! Each operation is described by a function that decides whether it is
//! admitted, and by a function that gives the state it leaves behind.

use vstd::prelude::*;
use crate::error::ErrorCode;
use crate::identity::Identity;
use crate::payout::payout;
use crate::state::{Bet, GlobalState, MarketView, MAX_OUTCOMES, MIN_OUTCOMES};

verus! {

impl GlobalState {
    /// A registry that `authority` has just set up: it has issued nothing.
    pub open spec fn fresh(authority: Identity) -> GlobalState {
        GlobalState { authority, market_count: 0 }
    }

    /// This registry after it has issued one more identifier.
    pub open spec fn advanced(self) -> GlobalState
        recommends
            self.market_count < u64::MAX,
    {
        GlobalState { market_count: (self.market_count + 1) as u64, ..self }
    }
}

impl MarketView {
    /// Decides whether a market with `outcome_count` outcomes and the given
    /// resolution time may be created at the time `now`: the first reason, in
    /// this order, for which it is refused, if there is one.
    pub open spec fn check_proposal(outcome_count: nat, resolution_time: int, now: int) -> Result<
        (),
        ErrorCode,
    > {
        if outcome_count < MIN_OUTCOMES {
            Err(ErrorCode::InsufficientOutcomes)
        } else if outcome_count > MAX_OUTCOMES {
            Err(ErrorCode::TooManyOutcomes)
        } else if resolution_time <= now {
            Err(ErrorCode::InvalidResolutionTime)
        } else {
            Ok(())
        }
    }

    /// The market that a successful creation opens: unresolved, every pool
    /// empty.
    pub open spec fn opened(
        authority: Identity,
        market_id: nat,
        question: Seq<char>,
        outcomes: Seq<Seq<char>>,
        resolution_time: int,
        min_bet: nat,
        now: int,
    ) -> MarketView {
        MarketView {
            authority,
            market_id,
            question,
            outcomes,
            outcome_pools: Seq::new(outcomes.len(), |i: int| 0nat),
            resolution_time,
            min_bet,
            resolved: false,
            winning_outcome: None,
            total_pool: 0,
            created_at: now,
        }
    }

    /// The value staked on the outcome `index`, and nothing where the market
    /// has no such outcome.
    pub open spec fn pool_of(self, index: u8) -> nat {
        if index < self.outcome_pools.len() {
            self.outcome_pools[index as int]
        } else {
            0
        }
    }

    /// Decides whether a wager of `amount` on the outcome `outcome_index` is
    /// admitted at the time `now`: the first reason, in this order, for which
    /// it is refused, if there is one.
    pub open spec fn check_bet(self, outcome_index: u8, amount: nat, now: int) -> Result<
        (),
        ErrorCode,
    > {
        if self.resolved {
            Err(ErrorCode::MarketResolved)
        } else if now >= self.resolution_time {
            Err(ErrorCode::BettingClosed)
        } else if amount < self.min_bet {
            Err(ErrorCode::BetTooSmall)
        } else if outcome_index >= self.outcomes.len() {
            Err(ErrorCode::InvalidOutcome)
        } else {
            Ok(())
        }
    }

    /// This market after a wager of `amount` on the outcome `outcome_index`:
    /// the pool of that outcome and the total have both grown by `amount`.
    pub open spec fn with_bet(self, outcome_index: u8, amount: nat) -> MarketView {
        MarketView {
            outcome_pools: self.outcome_pools.update(
                outcome_index as int,
                self.outcome_pools[outcome_index as int] + amount,
            ),
            total_pool: self.total_pool + amount,
            ..self
        }
    }

    /// Decides whether `caller` may resolve this market to the outcome
    /// `outcome_index` at the time `now`: the first reason, in this order, for
    /// which it is refused, if there is one.
    pub open spec fn check_resolution(self, caller: Identity, outcome_index: u8, now: int) -> Result<
        (),
        ErrorCode,
    > {
        if caller != self.authority {
            Err(ErrorCode::Unauthorized)
        } else if self.resolved {
            Err(ErrorCode::MarketAlreadyResolved)
        } else if now < self.resolution_time {
            Err(ErrorCode::TooEarlyToResolve)
        } else if outcome_index >= self.outcomes.len() {
            Err(ErrorCode::InvalidOutcome)
        } else {
            Ok(())
        }
    }

    /// This market once resolved to the outcome `outcome_index`. The pools
    /// stay as they are.
    pub open spec fn resolved_as(self, outcome_index: u8) -> MarketView {
        MarketView { resolved: true, winning_outcome: Some(outcome_index), ..self }
    }

    /// Decides a claim of `claimant` on `bet`: the payout that is due, or the
    /// first reason, in this order, for which the claim is refused.
    pub open spec fn check_claim(self, bet: Bet, claimant: Identity) -> Result<nat, ErrorCode> {
        if !self.resolved {
            Err(ErrorCode::MarketNotResolved)
        } else if bet.claimed {
            Err(ErrorCode::AlreadyClaimed)
        } else if bet.bettor != claimant {
            Err(ErrorCode::Unauthorized)
        } else if self.winning_outcome != Some(bet.outcome_index) {
            Err(ErrorCode::LosingBet)
        } else if payout(bet.amount as nat, self.total_pool, self.pool_of(bet.outcome_index)) == 0 {
            Err(ErrorCode::NoPayoutAvailable)
        } else {
            Ok(payout(bet.amount as nat, self.total_pool, self.pool_of(bet.outcome_index)))
        }
    }
}

impl Bet {
    /// This wager once its payout has been redeemed.
    pub open spec fn redeemed(self) -> Bet {
        Bet { claimed: true, ..self }
    }
}

} // verus!
