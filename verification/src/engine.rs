//! The operations of the engine.
//!
//! Each operation that can be refused comes in two parts: a function that
//! decides, named `check_..`, which changes nothing, and the operation
//! itself, which decides in the same way and then acts. A caller that has
//! work of its own to do between the decision and the act, such as moving a
//! stake into custody, asks for the decision first.

use vstd::prelude::*;
use crate::error::ErrorCode;
use crate::events::{BetPlaced, MarketCreated, MarketResolved, PayoutClaimed};
use crate::identity::Identity;
use crate::laws::{lemma_bet_keeps_market_sound, lemma_opened_market_is_sound};
use crate::payout::calculate_payout;
use crate::state::{Bet, GlobalState, Market, MarketView, MAX_OUTCOMES, MIN_OUTCOMES};

verus! {

/// Sets up the registry for `authority`. It has issued no identifier yet.
pub fn initialize(authority: Identity) -> (global_state: GlobalState)
    ensures
        global_state == GlobalState::fresh(authority),
{
    GlobalState { authority, market_count: 0 }
}

impl GlobalState {
    /// Issues the next market identifier: the number of markets created so
    /// far, which then grows by one.
    pub fn next_market_id(&mut self) -> (market_id: u64)
        requires
            old(self).market_count < u64::MAX,
        ensures
            market_id == old(self).market_count,
            *final(self) == old(self).advanced(),
    {
        let market_id = self.market_count;
        self.market_count = market_id + 1;
        market_id
    }
}

/// Decides whether a market with `outcome_count` outcomes and the given
/// resolution time may be created at the time `now`.
///
/// The proposal is refused with the first of these that applies:
/// `InsufficientOutcomes` for fewer than two outcomes; `TooManyOutcomes` for
/// more than ten; `InvalidResolutionTime` where `resolution_time` is not
/// after `now`.
pub fn check_proposal(outcome_count: usize, resolution_time: i64, now: i64) -> (result: Result<
    (),
    ErrorCode,
>)
    ensures
        result == MarketView::check_proposal(
            outcome_count as nat,
            resolution_time as int,
            now as int,
        ),
{
    if outcome_count < MIN_OUTCOMES {
        return Err(ErrorCode::InsufficientOutcomes);
    }
    if outcome_count > MAX_OUTCOMES {
        return Err(ErrorCode::TooManyOutcomes);
    }
    if resolution_time <= now {
        return Err(ErrorCode::InvalidResolutionTime);
    }
    Ok(())
}

/// Creates a market for `authority`, with an identifier from `global_state`.
///
/// A proposal that [`check_proposal`] refuses is refused here for the same
/// reason, and `global_state` is left as it was. Otherwise the registry
/// issues one identifier, and the result holds the market, open and with
/// empty pools, and the notification.
///
/// The registry has to have an identifier left to issue.
pub fn create_market(
    global_state: &mut GlobalState,
    authority: Identity,
    question: String,
    outcomes: Vec<String>,
    resolution_time: i64,
    min_bet: u64,
    now: i64,
) -> (result: Result<(Market, MarketCreated), ErrorCode>)
    requires
        MarketView::check_proposal(outcomes.len() as nat, resolution_time as int, now as int) is Ok
            ==> old(global_state).market_count < u64::MAX,
    ensures
        match MarketView::check_proposal(
            outcomes.len() as nat,
            resolution_time as int,
            now as int,
        ) {
            Ok(_) => {
                &&& result matches Ok((market, event))
                &&& market@ == MarketView::opened(
                    authority,
                    old(global_state).market_count as nat,
                    question@,
                    outcomes.deep_view(),
                    resolution_time as int,
                    min_bet as nat,
                    now as int,
                )
                &&& market.wf()
                &&& event.announces(market@)
                &&& *final(global_state) == old(global_state).advanced()
            },
            Err(reason) => {
                &&& result matches Err(refusal)
                &&& refusal == reason
                &&& *final(global_state) == *old(global_state)
            },
        },
{
    let count = outcomes.len();
    match check_proposal(count, resolution_time, now) {
        Err(reason) => {
            return Err(reason);
        },
        Ok(_) => {},
    }
    let mut outcome_pools: Vec<u64> = Vec::new();
    let mut i: usize = 0;
    while i < count
        invariant
            i <= count,
            outcome_pools.len() == i,
            forall|k: int| 0 <= k < i ==> outcome_pools[k] == 0,
        decreases count - i,
    {
        outcome_pools.push(0);
        i += 1;
    }
    let announced_outcomes = outcomes.clone();
    assert(announced_outcomes.deep_view() =~= outcomes.deep_view());
    let announced_question = question.clone();
    let market_id = global_state.next_market_id();
    let market = Market {
        authority,
        market_id,
        question,
        outcomes,
        outcome_pools,
        resolution_time,
        min_bet,
        resolved: false,
        winning_outcome: None,
        total_pool: 0,
        created_at: now,
    };
    proof {
        let opened = MarketView::opened(
            authority,
            market_id as nat,
            market@.question,
            market@.outcomes,
            resolution_time as int,
            min_bet as nat,
            now as int,
        );
        assert(market@.outcome_pools =~= opened.outcome_pools);
        lemma_opened_market_is_sound(
            authority,
            market_id as nat,
            market@.question,
            market@.outcomes,
            resolution_time as int,
            min_bet as nat,
            now as int,
        );
    }
    let event = MarketCreated {
        market_id,
        authority,
        question: announced_question,
        outcomes: announced_outcomes,
        resolution_time,
    };
    Ok((market, event))
}

/// Decides whether `market` admits a wager of `amount` on the outcome
/// `outcome_index` at the time `now`.
///
/// The wager is refused with the first of these that applies:
/// `MarketResolved`; `BettingClosed` where `now` is not before the resolution
/// time; `BetTooSmall`; `InvalidOutcome`. A caller that moves the stake into
/// the market's vault does so after this has admitted the wager and before
/// [`place_bet`] records it.
pub fn check_bet(market: &Market, outcome_index: u8, amount: u64, now: i64) -> (result: Result<
    (),
    ErrorCode,
>)
    ensures
        result == market@.check_bet(outcome_index, amount as nat, now as int),
{
    if market.resolved {
        return Err(ErrorCode::MarketResolved);
    }
    if now >= market.resolution_time {
        return Err(ErrorCode::BettingClosed);
    }
    if amount < market.min_bet {
        return Err(ErrorCode::BetTooSmall);
    }
    if outcome_index as usize >= market.outcomes.len() {
        return Err(ErrorCode::InvalidOutcome);
    }
    Ok(())
}

/// Records a wager of `bettor` on `market`, whose record is `market_key`.
///
/// A wager that [`check_bet`] refuses is refused here for the same reason,
/// and `market` is left as it was. Otherwise the pool of the outcome and the
/// total pool both grow by `amount`, and the result holds the record of the
/// wager, unclaimed and stamped with `now`, and the notification.
///
/// The total pool with the new stake has to fit the width of its counter.
pub fn place_bet(
    market: &mut Market,
    bettor: Identity,
    market_key: Identity,
    outcome_index: u8,
    amount: u64,
    now: i64,
) -> (result: Result<(Bet, BetPlaced), ErrorCode>)
    requires
        old(market).wf(),
        old(market)@.check_bet(outcome_index, amount as nat, now as int) is Ok
            ==> old(market).total_pool + amount <= u64::MAX,
    ensures
        final(market).wf(),
        match old(market)@.check_bet(outcome_index, amount as nat, now as int) {
            Ok(_) => {
                &&& result == Ok::<(Bet, BetPlaced), ErrorCode>(
                    (
                        Bet {
                            bettor,
                            market: market_key,
                            outcome_index,
                            amount,
                            claimed: false,
                            timestamp: now,
                        },
                        BetPlaced {
                            bettor,
                            market_id: old(market).market_id,
                            outcome_index,
                            amount,
                        },
                    ),
                )
                &&& final(market)@ == old(market)@.with_bet(outcome_index, amount as nat)
            },
            Err(reason) => {
                &&& result == Err::<(Bet, BetPlaced), ErrorCode>(reason)
                &&& *final(market) == *old(market)
            },
        },
{
    match check_bet(market, outcome_index, amount, now) {
        Err(reason) => {
            return Err(reason);
        },
        Ok(_) => {},
    }
    let index = outcome_index as usize;
    let pool = market.outcome_pools[index];
    proof {
        lemma_bet_keeps_market_sound(market@, outcome_index, amount as nat, now as int);
    }
    market.outcome_pools.set(index, pool + amount);
    market.total_pool = market.total_pool + amount;
    assert(market@.outcome_pools =~= old(market)@.with_bet(
        outcome_index,
        amount as nat,
    ).outcome_pools);
    let bet = Bet {
        bettor,
        market: market_key,
        outcome_index,
        amount,
        claimed: false,
        timestamp: now,
    };
    let event = BetPlaced { bettor, market_id: market.market_id, outcome_index, amount };
    Ok((bet, event))
}

/// Decides whether `caller` may resolve `market` to the outcome
/// `winning_outcome_index` at the time `now`.
///
/// The resolution is refused with the first of these that applies:
/// `Unauthorized` where `caller` is not the market's authority;
/// `MarketAlreadyResolved`; `TooEarlyToResolve` where `now` is before the
/// resolution time; `InvalidOutcome`.
pub fn check_resolution(
    market: &Market,
    caller: Identity,
    winning_outcome_index: u8,
    now: i64,
) -> (result: Result<(), ErrorCode>)
    ensures
        result == market@.check_resolution(caller, winning_outcome_index, now as int),
{
    if !caller.same_as(&market.authority) {
        return Err(ErrorCode::Unauthorized);
    }
    if market.resolved {
        return Err(ErrorCode::MarketAlreadyResolved);
    }
    if now < market.resolution_time {
        return Err(ErrorCode::TooEarlyToResolve);
    }
    if winning_outcome_index as usize >= market.outcomes.len() {
        return Err(ErrorCode::InvalidOutcome);
    }
    Ok(())
}

/// Resolves `market` to the outcome `winning_outcome_index` for `caller`.
///
/// A resolution that [`check_resolution`] refuses is refused here for the
/// same reason, and `market` is left as it was. Otherwise the market is
/// resolved to that outcome for good, its pools unchanged, and the
/// notification names the outcome.
pub fn resolve_market(
    market: &mut Market,
    caller: Identity,
    winning_outcome_index: u8,
    now: i64,
) -> (result: Result<MarketResolved, ErrorCode>)
    ensures
        old(market).wf() ==> final(market).wf(),
        match old(market)@.check_resolution(caller, winning_outcome_index, now as int) {
            Ok(_) => {
                &&& result matches Ok(event)
                &&& event.announces(final(market)@)
                &&& final(market)@ == old(market)@.resolved_as(winning_outcome_index)
            },
            Err(reason) => {
                &&& result matches Err(refusal)
                &&& refusal == reason
                &&& *final(market) == *old(market)
            },
        },
{
    match check_resolution(market, caller, winning_outcome_index, now) {
        Err(reason) => {
            return Err(reason);
        },
        Ok(_) => {},
    }
    market.resolved = true;
    market.winning_outcome = Some(winning_outcome_index);
    let winning_outcome_name = market.outcomes[winning_outcome_index as usize].clone();
    Ok(
        MarketResolved {
            market_id: market.market_id,
            winning_outcome: winning_outcome_index,
            winning_outcome_name,
        },
    )
}

/// Decides a claim of `claimant` on the wager `bet` of `market`, and computes
/// the payout that is due.
///
/// The claim is refused with the first of these that applies:
/// `MarketNotResolved`; `AlreadyClaimed`; `Unauthorized` where `claimant` is
/// not the bettor; `LosingBet`; `NoPayoutAvailable` where the payout comes to
/// nothing. The payout is given in 128 bits, which hold it whatever the
/// wager.
pub fn check_claim(market: &Market, bet: &Bet, claimant: Identity) -> (result: Result<
    u128,
    ErrorCode,
>)
    requires
        market.wf(),
    ensures
        match market@.check_claim(*bet, claimant) {
            Ok(due) => result == Ok::<u128, ErrorCode>(due as u128) && due <= u128::MAX,
            Err(reason) => result == Err::<u128, ErrorCode>(reason),
        },
{
    if !market.resolved {
        return Err(ErrorCode::MarketNotResolved);
    }
    if bet.claimed {
        return Err(ErrorCode::AlreadyClaimed);
    }
    if !bet.bettor.same_as(&claimant) {
        return Err(ErrorCode::Unauthorized);
    }
    let winning_outcome = match market.winning_outcome {
        Some(index) => index,
        None => {
            return Err(ErrorCode::MarketNotResolved);
        },
    };
    if bet.outcome_index != winning_outcome {
        return Err(ErrorCode::LosingBet);
    }
    let winning_pool = market.outcome_pools[winning_outcome as usize];
    let due = calculate_payout(bet.amount, market.total_pool, winning_pool);
    if due == 0 {
        return Err(ErrorCode::NoPayoutAvailable);
    }
    Ok(due)
}

/// Redeems the wager `bet` on the resolved market `market` for `claimant`.
///
/// A claim that [`check_claim`] refuses is refused here for the same reason,
/// and `bet` is left as it was. Otherwise the wager is marked as claimed and
/// the notification names the payout, which the caller is then to transfer
/// from the market's vault to the bettor. The wager is marked before that
/// transfer is asked for, so that a second claim is refused whether or not
/// the transfer has been completed.
///
/// The payout that is due has to fit the width of the pool counters, as it
/// does for every wager that is part of the market's pools.
pub fn claim_payout(market: &Market, bet: &mut Bet, claimant: Identity) -> (result: Result<
    PayoutClaimed,
    ErrorCode,
>)
    requires
        market.wf(),
        market@.check_claim(*old(bet), claimant) matches Ok(due) ==> due <= u64::MAX,
    ensures
        match market@.check_claim(*old(bet), claimant) {
            Ok(due) => {
                &&& result == Ok::<PayoutClaimed, ErrorCode>(
                    PayoutClaimed {
                        bettor: old(bet).bettor,
                        market_id: market.market_id,
                        bet_amount: old(bet).amount,
                        payout_amount: due as u64,
                    },
                )
                &&& *final(bet) == old(bet).redeemed()
            },
            Err(reason) => {
                &&& result == Err::<PayoutClaimed, ErrorCode>(reason)
                &&& *final(bet) == *old(bet)
            },
        },
{
    let due = match check_claim(market, bet, claimant) {
        Err(reason) => {
            return Err(reason);
        },
        Ok(due) => due,
    };
    bet.claimed = true;
    Ok(
        PayoutClaimed {
            bettor: bet.bettor,
            market_id: market.market_id,
            bet_amount: bet.amount,
            payout_amount: due as u64,
        },
    )
}

} // verus!
