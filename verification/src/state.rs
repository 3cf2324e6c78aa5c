//! The records that the engine keeps: the registry, markets and wagers.

use vstd::prelude::*;
use crate::identity::Identity;
use crate::pools::{amounts, pool_sum};

verus! {

/// Fewest outcomes that a market may have.
pub const MIN_OUTCOMES: usize = 2;

/// Most outcomes that a market may have.
pub const MAX_OUTCOMES: usize = 10;

/// The registry that issues market identifiers.
#[derive(Clone, Copy, Debug, PartialEq, Eq)]
pub struct GlobalState {
    /// The party that set the registry up.
    pub authority: Identity,
    /// Number of markets created so far, and the identifier of the next one.
    pub market_count: u64,
}

/// One stake on one outcome of one market.
#[derive(Clone, Copy, Debug, PartialEq, Eq)]
pub struct Bet {
    /// The participant that staked.
    pub bettor: Identity,
    /// The record of the market that the stake was placed on.
    pub market: Identity,
    /// The outcome that the stake backs.
    pub outcome_index: u8,
    /// The value staked.
    pub amount: u64,
    /// Whether the payout of this wager has been redeemed.
    pub claimed: bool,
    /// When the stake was placed.
    pub timestamp: i64,
}

/// One betting question with its outcomes, pools and resolution state.
#[derive(Clone, Debug, PartialEq, Eq)]
pub struct Market {
    /// The party that may resolve this market.
    pub authority: Identity,
    /// The identifier that the registry issued for this market.
    pub market_id: u64,
    /// The question that the market asks.
    pub question: String,
    /// The labels of the outcomes, in order.
    pub outcomes: Vec<String>,
    /// The value staked on each outcome, in the order of `outcomes`.
    pub outcome_pools: Vec<u64>,
    /// Wagers are taken strictly before this time, resolution at or after it.
    pub resolution_time: i64,
    /// The smallest stake that the market accepts.
    pub min_bet: u64,
    /// Whether the winning outcome has been declared.
    pub resolved: bool,
    /// The winning outcome, once declared.
    pub winning_outcome: Option<u8>,
    /// The value staked on all outcomes together.
    pub total_pool: u64,
    /// When the market was created.
    pub created_at: i64,
}

/// Where a market stands in its life. A market only ever moves forward
/// through these.
#[derive(Clone, Copy, Debug, PartialEq, Eq, Hash, Structural)]
pub enum MarketPhase {
    /// Unresolved, before the resolution time: wagers are taken.
    Open,
    /// Unresolved, at or after the resolution time: the market waits for its
    /// authority to name the winning outcome.
    AwaitingResolution,
    /// The winning outcome is named: winning wagers are redeemed.
    Resolved,
}

/// A market as a mathematical value.
pub struct MarketView {
    pub authority: Identity,
    pub market_id: nat,
    pub question: Seq<char>,
    pub outcomes: Seq<Seq<char>>,
    pub outcome_pools: Seq<nat>,
    pub resolution_time: int,
    pub min_bet: nat,
    pub resolved: bool,
    pub winning_outcome: Option<u8>,
    pub total_pool: nat,
    pub created_at: int,
}

impl MarketView {
    /// The invariant of every market: between two and ten outcomes, one pool
    /// per outcome, a total that is the sum of the pools, and a winning
    /// outcome, within range, exactly when the market is resolved.
    pub open spec fn wf(self) -> bool {
        &&& MIN_OUTCOMES <= self.outcomes.len() <= MAX_OUTCOMES
        &&& self.outcome_pools.len() == self.outcomes.len()
        &&& self.total_pool == pool_sum(self.outcome_pools)
        &&& self.resolved <==> self.winning_outcome is Some
        &&& self.winning_outcome matches Some(winner) ==> winner < self.outcomes.len()
    }

    /// Where this market stands at the time `now`.
    pub open spec fn phase(self, now: int) -> MarketPhase {
        if self.resolved {
            MarketPhase::Resolved
        } else if now < self.resolution_time {
            MarketPhase::Open
        } else {
            MarketPhase::AwaitingResolution
        }
    }
}

impl View for Market {
    type V = MarketView;

    open spec fn view(&self) -> MarketView {
        MarketView {
            authority: self.authority,
            market_id: self.market_id as nat,
            question: self.question@,
            outcomes: self.outcomes.deep_view(),
            outcome_pools: amounts(self.outcome_pools@),
            resolution_time: self.resolution_time as int,
            min_bet: self.min_bet as nat,
            resolved: self.resolved,
            winning_outcome: self.winning_outcome,
            total_pool: self.total_pool as nat,
            created_at: self.created_at as int,
        }
    }
}

impl Market {
    /// Whether this record satisfies the invariant of markets.
    pub open spec fn wf(&self) -> bool {
        self@.wf()
    }

    /// Where this market stands at the time `now`.
    pub fn phase(&self, now: i64) -> (phase: MarketPhase)
        ensures
            phase == self@.phase(now as int),
    {
        if self.resolved {
            MarketPhase::Resolved
        } else if now < self.resolution_time {
            MarketPhase::Open
        } else {
            MarketPhase::AwaitingResolution
        }
    }

    /// Tests the invariant of markets on this record, as is due for a record
    /// that comes from storage.
    pub fn is_well_formed(&self) -> (ok: bool)
        ensures
            ok == self.wf(),
    {
        let count = self.outcomes.len();
        if count < MIN_OUTCOMES || count > MAX_OUTCOMES {
            return false;
        }
        if self.outcome_pools.len() != count {
            return false;
        }
        let ghost pools = amounts(self.outcome_pools@);
        let mut sum: u128 = 0;
        let mut i: usize = 0;
        while i < count
            invariant
                i <= count,
                count == self.outcome_pools.len(),
                count <= MAX_OUTCOMES,
                pools == amounts(self.outcome_pools@),
                sum == pool_sum(pools.take(i as int)),
                sum <= i * u64::MAX,
            decreases count - i,
        {
            assert(pools.take(i + 1).drop_last() =~= pools.take(i as int));
            sum = sum + self.outcome_pools[i] as u128;
            i += 1;
        }
        assert(pools.take(count as int) =~= pools);
        if sum != self.total_pool as u128 {
            return false;
        }
        match self.winning_outcome {
            Some(winner) => self.resolved && (winner as usize) < count,
            None => !self.resolved,
        }
    }
}

} // verus!
