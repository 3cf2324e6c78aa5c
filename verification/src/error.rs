//! The reasons for which an operation is refused.

use vstd::prelude::*;

verus! {

/// Why an operation was refused. A refused operation changes nothing.
#[derive(Clone, Copy, Debug, PartialEq, Eq, Hash, Structural)]
pub enum ErrorCode {
    /// A market was proposed with fewer than two outcomes.
    InsufficientOutcomes,
    /// A market was proposed with more than ten outcomes.
    TooManyOutcomes,
    /// A market was proposed with a resolution time that is not in the future.
    InvalidResolutionTime,
    /// A wager was offered on a market that is already resolved.
    MarketResolved,
    /// A wager was offered at or after the resolution time.
    BettingClosed,
    /// A wager was offered below the market's minimum.
    BetTooSmall,
    /// An outcome index does not name one of the market's outcomes.
    InvalidOutcome,
    /// The caller is not the party that the operation is reserved for.
    Unauthorized,
    /// Resolution was asked of a market that is already resolved.
    MarketAlreadyResolved,
    /// Resolution was asked before the resolution time.
    TooEarlyToResolve,
    /// A payout was claimed on a market that is not resolved yet.
    MarketNotResolved,
    /// A payout was claimed on a wager that has been paid out before.
    AlreadyClaimed,
    /// A payout was claimed on a wager that backs a losing outcome.
    LosingBet,
    /// The payout of a winning wager comes to nothing.
    NoPayoutAvailable,
}

impl ErrorCode {
    /// The text of [`ErrorCode::message`].
    pub open spec fn message_text(self) -> Seq<char> {
        match self {
            ErrorCode::InsufficientOutcomes => "Market needs at least 2 outcomes"@,
            ErrorCode::TooManyOutcomes => "Market can have at most 10 outcomes"@,
            ErrorCode::InvalidResolutionTime => "Resolution time must be in the future"@,
            ErrorCode::MarketResolved => "Market is already resolved"@,
            ErrorCode::BettingClosed => "Betting period has ended"@,
            ErrorCode::BetTooSmall => "Bet amount is below minimum"@,
            ErrorCode::InvalidOutcome => "Invalid outcome index"@,
            ErrorCode::Unauthorized => "Unauthorized"@,
            ErrorCode::MarketAlreadyResolved => "Market is already resolved"@,
            ErrorCode::TooEarlyToResolve => "Too early to resolve market"@,
            ErrorCode::MarketNotResolved => "Market is not resolved yet"@,
            ErrorCode::AlreadyClaimed => "Payout already claimed"@,
            ErrorCode::LosingBet => "This bet is on a losing outcome"@,
            ErrorCode::NoPayoutAvailable => "No payout available"@,
        }
    }

    /// A sentence that tells a person why the operation was refused.
    pub fn message(&self) -> (text: &'static str)
        ensures
            text@ == self.message_text(),
    {
        match self {
            ErrorCode::InsufficientOutcomes => "Market needs at least 2 outcomes",
            ErrorCode::TooManyOutcomes => "Market can have at most 10 outcomes",
            ErrorCode::InvalidResolutionTime => "Resolution time must be in the future",
            ErrorCode::MarketResolved => "Market is already resolved",
            ErrorCode::BettingClosed => "Betting period has ended",
            ErrorCode::BetTooSmall => "Bet amount is below minimum",
            ErrorCode::InvalidOutcome => "Invalid outcome index",
            ErrorCode::Unauthorized => "Unauthorized",
            ErrorCode::MarketAlreadyResolved => "Market is already resolved",
            ErrorCode::TooEarlyToResolve => "Too early to resolve market",
            ErrorCode::MarketNotResolved => "Market is not resolved yet",
            ErrorCode::AlreadyClaimed => "Payout already claimed",
            ErrorCode::LosingBet => "This bet is on a losing outcome",
            ErrorCode::NoPayoutAvailable => "No payout available",
        }
    }
}

} // verus!
