use betting_markets::{
    check_bet, check_claim, check_proposal, check_resolution, claim_payout, place_bet,
    resolve_market, Bet, ErrorCode, Identity, Market, MarketPhase,
};

fn party(tag: u8) -> Identity {
    Identity::new([tag; 32])
}

fn market_with(pools: Vec<u64>, winner: Option<u8>) -> Market {
    let total: u64 = pools.iter().sum();
    Market {
        authority: party(1),
        market_id: 12,
        question: "q".to_string(),
        outcomes: pools.iter().map(|_| "outcome".to_string()).collect(),
        outcome_pools: pools,
        resolution_time: 500,
        min_bet: 1,
        resolved: winner.is_some(),
        winning_outcome: winner,
        total_pool: total,
        created_at: 0,
    }
}

fn wager(tag: u8, outcome_index: u8, amount: u64) -> Bet {
    Bet {
        bettor: party(tag),
        market: party(50),
        outcome_index,
        amount,
        claimed: false,
        timestamp: 3,
    }
}

#[test]
fn check_proposal_counts_outcomes_then_looks_at_the_time() {
    assert_eq!(check_proposal(0, 10, 0), Err(ErrorCode::InsufficientOutcomes));
    assert_eq!(check_proposal(1, 10, 0), Err(ErrorCode::InsufficientOutcomes));
    assert_eq!(check_proposal(2, 10, 0), Ok(()));
    assert_eq!(check_proposal(10, 10, 0), Ok(()));
    assert_eq!(check_proposal(11, 10, 0), Err(ErrorCode::TooManyOutcomes));
    assert_eq!(check_proposal(usize::MAX, 10, 0), Err(ErrorCode::TooManyOutcomes));
    assert_eq!(check_proposal(2, 10, 10), Err(ErrorCode::InvalidResolutionTime));
    assert_eq!(check_proposal(2, 10, 9), Ok(()));
    assert_eq!(check_proposal(2, i64::MIN, i64::MIN), Err(ErrorCode::InvalidResolutionTime));
    assert_eq!(check_proposal(2, i64::MAX, i64::MIN), Ok(()));
    assert_eq!(check_proposal(11, 0, 10), Err(ErrorCode::TooManyOutcomes));
}

#[test]
fn check_resolution_decides_without_resolving() {
    let market = market_with(vec![5, 7], None);
    let before = market.clone();
    assert_eq!(check_resolution(&market, party(1), 1, 500), Ok(()));
    assert_eq!(check_resolution(&market, party(1), 0, i64::MAX), Ok(()));
    assert_eq!(check_resolution(&market, party(2), 1, 500), Err(ErrorCode::Unauthorized));
    assert_eq!(check_resolution(&market, party(1), 1, 499), Err(ErrorCode::TooEarlyToResolve));
    assert_eq!(check_resolution(&market, party(1), 2, 500), Err(ErrorCode::InvalidOutcome));
    assert_eq!(market, before);
    let resolved = market_with(vec![5, 7], Some(0));
    assert_eq!(
        check_resolution(&resolved, party(1), 1, 500),
        Err(ErrorCode::MarketAlreadyResolved)
    );
}

#[test]
fn check_claim_names_the_payout_and_leaves_the_wager() {
    let market = market_with(vec![30, 70], Some(0));
    let bet = wager(2, 0, 10);
    assert_eq!(check_claim(&market, &bet, party(2)), Ok(33));
    assert_eq!(check_claim(&market, &bet, party(2)), Ok(33));
    assert!(!bet.claimed);
    assert_eq!(check_claim(&market, &bet, party(3)), Err(ErrorCode::Unauthorized));
    assert_eq!(check_claim(&market, &wager(2, 1, 10), party(2)), Err(ErrorCode::LosingBet));
    assert_eq!(check_claim(&market, &wager(2, 9, 10), party(2)), Err(ErrorCode::LosingBet));
    let open = market_with(vec![30, 70], None);
    assert_eq!(check_claim(&open, &bet, party(2)), Err(ErrorCode::MarketNotResolved));
    let mut claimed = bet;
    claimed.claimed = true;
    assert_eq!(check_claim(&market, &claimed, party(2)), Err(ErrorCode::AlreadyClaimed));
}

#[test]
fn check_claim_reports_resolution_before_the_claimed_mark() {
    let open = market_with(vec![30, 70], None);
    let mut claimed = wager(2, 1, 10);
    claimed.claimed = true;
    assert_eq!(check_claim(&open, &claimed, party(3)), Err(ErrorCode::MarketNotResolved));
    let resolved = market_with(vec![30, 70], Some(0));
    assert_eq!(check_claim(&resolved, &claimed, party(3)), Err(ErrorCode::AlreadyClaimed));
}

#[test]
fn check_claim_holds_a_payout_that_no_pool_counter_could() {
    let market = market_with(vec![1, u64::MAX - 1], Some(0));
    let foreign = wager(2, 0, u64::MAX);
    let max: u128 = u64::MAX as u128;
    assert_eq!(check_claim(&market, &foreign, party(2)), Ok(max * max));
}

#[test]
fn claim_payout_pays_what_check_claim_names() {
    let market = market_with(vec![3, 4, 0], Some(0));
    let mut bet = wager(2, 0, 2);
    let due = check_claim(&market, &bet, party(2)).unwrap();
    assert_eq!(due, 4);
    let paid = claim_payout(&market, &mut bet, party(2)).unwrap();
    assert_eq!(paid.payout_amount as u128, due);
    assert_eq!(paid.bet_amount, 2);
    assert_eq!(paid.market_id, 12);
    assert_eq!(paid.bettor, party(2));
    assert_eq!(
        bet,
        Bet {
            bettor: party(2),
            market: party(50),
            outcome_index: 0,
            amount: 2,
            claimed: true,
            timestamp: 3,
        }
    );
}

#[test]
fn market_is_open_then_awaits_resolution_then_is_resolved() {
    let mut market = market_with(vec![0, 0], None);
    assert_eq!(market.phase(i64::MIN), MarketPhase::Open);
    assert_eq!(market.phase(499), MarketPhase::Open);
    assert_eq!(market.phase(500), MarketPhase::AwaitingResolution);
    assert_eq!(market.phase(i64::MAX), MarketPhase::AwaitingResolution);
    place_bet(&mut market, party(2), party(50), 0, 5, 499).unwrap();
    assert_eq!(market.phase(499), MarketPhase::Open);
    resolve_market(&mut market, party(1), 0, 500).unwrap();
    assert_eq!(market.phase(0), MarketPhase::Resolved);
    assert_eq!(market.phase(500), MarketPhase::Resolved);
    assert_eq!(market.phase(i64::MAX), MarketPhase::Resolved);
}

#[test]
fn each_operation_is_admitted_in_its_phase_only() {
    let open = market_with(vec![5, 7], None);
    let resolved = market_with(vec![5, 7], Some(1));
    let bet = wager(2, 1, 7);
    for now in [0i64, 499, 500, 501] {
        let phase = open.phase(now);
        assert_eq!(check_bet(&open, 0, 1, now).is_ok(), phase == MarketPhase::Open);
        assert_eq!(
            check_resolution(&open, party(1), 0, now).is_ok(),
            phase == MarketPhase::AwaitingResolution
        );
        assert!(check_claim(&open, &bet, party(2)).is_err());
        assert!(check_bet(&resolved, 0, 1, now).is_err());
        assert!(check_resolution(&resolved, party(1), 0, now).is_err());
    }
    assert_eq!(check_claim(&resolved, &bet, party(2)), Ok(12));
}
