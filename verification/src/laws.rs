//! What holds of the rules whatever the inputs.

use vstd::prelude::*;
use crate::error::ErrorCode;
use crate::identity::Identity;
use crate::payout::lemma_payout_within_total;
use crate::pools::{lemma_pool_sum_of_empty_pools, lemma_pool_sum_update, lemma_pool_within_sum};
use crate::state::{Bet, GlobalState, MarketPhase, MarketView};

verus! {

/// A market that is admitted for creation satisfies the invariant of markets
/// from the start: its total pool, like every pool, is empty.
pub proof fn lemma_opened_market_is_sound(
    authority: Identity,
    market_id: nat,
    question: Seq<char>,
    outcomes: Seq<Seq<char>>,
    resolution_time: int,
    min_bet: nat,
    now: int,
)
    requires
        MarketView::check_proposal(outcomes.len(), resolution_time, now) is Ok,
    ensures
        MarketView::opened(
            authority,
            market_id,
            question,
            outcomes,
            resolution_time,
            min_bet,
            now,
        ).wf(),
{
    let market = MarketView::opened(
        authority,
        market_id,
        question,
        outcomes,
        resolution_time,
        min_bet,
        now,
    );
    lemma_pool_sum_of_empty_pools(market.outcome_pools);
}

/// Recording an admitted wager keeps the invariant of markets: the total
/// pool is still the sum of the pools.
pub proof fn lemma_bet_keeps_market_sound(
    market: MarketView,
    outcome_index: u8,
    amount: nat,
    now: int,
)
    requires
        market.wf(),
        market.check_bet(outcome_index, amount, now) is Ok,
    ensures
        market.with_bet(outcome_index, amount).wf(),
        market.outcome_pools[outcome_index as int] <= market.total_pool,
{
    let pool = market.outcome_pools[outcome_index as int];
    lemma_pool_within_sum(market.outcome_pools, outcome_index as int);
    lemma_pool_sum_update(market.outcome_pools, outcome_index as int, pool + amount);
}

/// An admitted resolution keeps the invariant of markets and every pool.
pub proof fn lemma_resolution_keeps_market_sound(
    market: MarketView,
    caller: Identity,
    outcome_index: u8,
    now: int,
)
    requires
        market.wf(),
        market.check_resolution(caller, outcome_index, now) is Ok,
    ensures
        market.resolved_as(outcome_index).wf(),
        market.resolved_as(outcome_index).outcome_pools == market.outcome_pools,
        market.resolved_as(outcome_index).total_pool == market.total_pool,
{
}

/// Every operation has its phase: a wager is admitted only on an open
/// market, a resolution only on a market that awaits it, and a claim only on
/// a resolved market.
pub proof fn lemma_each_operation_has_its_phase(
    market: MarketView,
    party: Identity,
    bet: Bet,
    outcome_index: u8,
    amount: nat,
    now: int,
)
    ensures
        market.check_bet(outcome_index, amount, now) is Ok ==> market.phase(now)
            == MarketPhase::Open,
        market.check_resolution(party, outcome_index, now) is Ok ==> market.phase(now)
            == MarketPhase::AwaitingResolution,
        market.check_claim(bet, party) is Ok ==> market.phase(now) == MarketPhase::Resolved,
{
}

/// A market only moves forward. As time passes an open market comes to
/// await its resolution and never opens again; a wager leaves the phase as
/// it is; a resolution makes the market resolved at all times.
pub proof fn lemma_phase_only_advances(
    market: MarketView,
    outcome_index: u8,
    amount: nat,
    now: int,
    later: int,
)
    requires
        now <= later,
    ensures
        market.phase(now) == MarketPhase::AwaitingResolution ==> market.phase(later)
            == MarketPhase::AwaitingResolution,
        market.phase(now) == MarketPhase::Resolved ==> market.phase(later)
            == MarketPhase::Resolved,
        market.with_bet(outcome_index, amount).phase(now) == market.phase(now),
        market.resolved_as(outcome_index).phase(now) == MarketPhase::Resolved,
{
}

/// A resolved market is final. It admits neither a wager nor another
/// resolution, whoever asks and whenever, so that its pools and its winning
/// outcome stay as they are.
pub proof fn lemma_resolved_market_is_final(
    market: MarketView,
    caller: Identity,
    outcome_index: u8,
    amount: nat,
    now: int,
)
    requires
        market.resolved,
    ensures
        market.check_bet(outcome_index, amount, now) == Err::<(), ErrorCode>(
            ErrorCode::MarketResolved,
        ),
        market.check_resolution(caller, outcome_index, now) is Err,
        caller == market.authority ==> market.check_resolution(caller, outcome_index, now)
            == Err::<(), ErrorCode>(ErrorCode::MarketAlreadyResolved),
{
}

impl GlobalState {
    /// This registry after `creations` successful creations of markets.
    pub open spec fn after(self, creations: nat) -> GlobalState
        decreases creations,
    {
        if creations == 0 {
            self
        } else {
            self.after((creations - 1) as nat).advanced()
        }
    }
}

/// Each successful creation raises the count of markets by exactly one.
pub proof fn lemma_count_after_creations(registry: GlobalState, creations: nat)
    requires
        registry.market_count + creations <= u64::MAX,
    ensures
        registry.after(creations).market_count == registry.market_count + creations,
        registry.after(creations).authority == registry.authority,
    decreases creations,
{
    if creations > 0 {
        lemma_count_after_creations(registry, (creations - 1) as nat);
    }
}

/// Market identifiers are never reused. The creation that follows `earlier`
/// others is issued a smaller identifier than the one that follows `later`
/// others.
pub proof fn lemma_market_ids_never_repeat(registry: GlobalState, earlier: nat, later: nat)
    requires
        earlier < later,
        registry.market_count + later <= u64::MAX,
    ensures
        registry.after(earlier).market_count < registry.after(later).market_count,
{
    lemma_count_after_creations(registry, earlier);
    lemma_count_after_creations(registry, later);
}

/// A wager is redeemed at most once. After a claim has succeeded, every
/// further claim on the same wager is refused as `AlreadyClaimed`, whoever
/// makes it.
pub proof fn lemma_claim_succeeds_at_most_once(
    market: MarketView,
    bet: Bet,
    first_claimant: Identity,
    second_claimant: Identity,
)
    requires
        market.check_claim(bet, first_claimant) is Ok,
    ensures
        market.check_claim(bet.redeemed(), second_claimant) == Err::<nat, ErrorCode>(
            ErrorCode::AlreadyClaimed,
        ),
{
}

/// Betting closes at the resolution time: a wager offered on an unresolved
/// market at exactly that time is refused as `BettingClosed`.
pub proof fn lemma_betting_closes_at_resolution_time(
    market: MarketView,
    outcome_index: u8,
    amount: nat,
)
    requires
        !market.resolved,
    ensures
        market.check_bet(outcome_index, amount, market.resolution_time) == Err::<(), ErrorCode>(
            ErrorCode::BettingClosed,
        ),
{
}

/// Resolution opens at the resolution time: at exactly that time the
/// authority of an unresolved market may resolve it to any of its outcomes.
pub proof fn lemma_resolution_opens_at_resolution_time(market: MarketView, outcome_index: u8)
    requires
        !market.resolved,
        outcome_index < market.outcomes.len(),
    ensures
        market.check_resolution(market.authority, outcome_index, market.resolution_time) is Ok,
{
}

impl MarketView {
    /// Whether the stake of `bet` is part of the pool of the outcome that it
    /// backs, as it is for every wager recorded on this market.
    pub open spec fn backs(self, bet: Bet) -> bool {
        bet.amount <= self.pool_of(bet.outcome_index)
    }
}

/// A wager is backed by the market that has just recorded it.
pub proof fn lemma_recorded_bet_is_backed(market: MarketView, bet: Bet)
    requires
        bet.outcome_index < market.outcome_pools.len(),
    ensures
        market.with_bet(bet.outcome_index, bet.amount as nat).backs(bet),
{
}

/// A wager that a market backs stays backed when the market records another
/// wager and when it is resolved.
pub proof fn lemma_backing_lasts(market: MarketView, bet: Bet, outcome_index: u8, amount: nat)
    requires
        market.backs(bet),
        outcome_index < market.outcome_pools.len(),
    ensures
        market.with_bet(outcome_index, amount).backs(bet),
        market.resolved_as(outcome_index).backs(bet),
{
}

/// No wager is overpaid. The payout of a wager that the market backs is at
/// most the total pool.
pub proof fn lemma_backed_payout_within_pool(market: MarketView, bet: Bet, claimant: Identity)
    requires
        market.wf(),
        market.backs(bet),
    ensures
        market.check_claim(bet, claimant) matches Ok(due) ==> 0 < due <= market.total_pool,
{
    lemma_payout_within_total(
        bet.amount as nat,
        market.total_pool,
        market.pool_of(bet.outcome_index),
    );
}

} // verus!
