//! The notifications that the operations hand back for publication.

use vstd::prelude::*;
use crate::identity::Identity;
use crate::state::MarketView;

verus! {

/// A market has been created.
#[derive(Clone, Debug, PartialEq, Eq)]
pub struct MarketCreated {
    pub market_id: u64,
    pub authority: Identity,
    pub question: String,
    pub outcomes: Vec<String>,
    pub resolution_time: i64,
}

/// A wager has been placed.
#[derive(Clone, Copy, Debug, PartialEq, Eq)]
pub struct BetPlaced {
    pub bettor: Identity,
    pub market_id: u64,
    pub outcome_index: u8,
    pub amount: u64,
}

/// A market has been resolved.
#[derive(Clone, Debug, PartialEq, Eq)]
pub struct MarketResolved {
    pub market_id: u64,
    pub winning_outcome: u8,
    pub winning_outcome_name: String,
}

/// A winning wager has been redeemed.
#[derive(Clone, Copy, Debug, PartialEq, Eq)]
pub struct PayoutClaimed {
    pub bettor: Identity,
    pub market_id: u64,
    pub bet_amount: u64,
    pub payout_amount: u64,
}

impl MarketCreated {
    /// Whether this notification describes the creation of `market`.
    pub open spec fn announces(&self, market: MarketView) -> bool {
        &&& self.market_id == market.market_id
        &&& self.authority == market.authority
        &&& self.question@ == market.question
        &&& self.outcomes.deep_view() == market.outcomes
        &&& self.resolution_time == market.resolution_time
    }
}

impl MarketResolved {
    /// Whether this notification describes the resolution of `market`, which
    /// is resolved.
    pub open spec fn announces(&self, market: MarketView) -> bool {
        &&& self.market_id == market.market_id
        &&& market.winning_outcome == Some(self.winning_outcome)
        &&& self.winning_outcome_name@ == market.outcomes[self.winning_outcome as int]
    }
}

} // verus!
