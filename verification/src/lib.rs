//! A parimutuel betting-market engine with machine-checked accounting.
//!
//! Participants stake value on one of a market's mutually exclusive outcomes
//! before its resolution time; the market's authority then names the winning
//! outcome, and each winning wager redeems a share of the whole pool in
//! proportion to its stake.
//!
//! The crate holds the rules only: it decides, computes and records, and
//! leaves the movement of funds, the clock and the storage of records to its
//! caller. Every operation takes the current time as an argument and hands
//! back the notification that its caller is expected to publish.

pub mod engine;
pub mod error;
pub mod events;
pub mod identity;
pub mod laws;
pub mod ledger;
pub mod payout;
pub mod pools;
pub mod rules;
pub mod state;

pub use engine::{
    check_bet, check_claim, check_proposal, check_resolution, claim_payout, create_market,
    initialize, place_bet, resolve_market,
};
pub use error::ErrorCode;
pub use events::{BetPlaced, MarketCreated, MarketResolved, PayoutClaimed};
pub use identity::Identity;
pub use payout::calculate_payout;
pub use state::{Bet, GlobalState, Market, MarketPhase, MarketView};
