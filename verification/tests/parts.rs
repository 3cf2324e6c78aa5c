use betting_markets::{calculate_payout, ErrorCode, Identity, Market};

fn party(tag: u8) -> Identity {
    Identity::new([tag; 32])
}

fn sample_market() -> Market {
    Market {
        authority: party(1),
        market_id: 0,
        question: "q".to_string(),
        outcomes: vec!["a".to_string(), "b".to_string(), "c".to_string()],
        outcome_pools: vec![4, 0, 6],
        resolution_time: 100,
        min_bet: 1,
        resolved: false,
        winning_outcome: None,
        total_pool: 10,
        created_at: 0,
    }
}

#[test]
fn payout_is_the_floor_of_the_share() {
    assert_eq!(calculate_payout(300, 400, 300), 400);
    assert_eq!(calculate_payout(10, 100, 30), 33);
    assert_eq!(calculate_payout(1, 100, 3), 33);
    assert_eq!(calculate_payout(2, 100, 3), 66);
    assert_eq!(calculate_payout(1, 1, 2), 0);
    assert_eq!(calculate_payout(0, 100, 30), 0);
    assert_eq!(calculate_payout(7, 0, 7), 0);
}

#[test]
fn payout_against_an_empty_winning_pool_is_nothing() {
    assert_eq!(calculate_payout(0, 0, 0), 0);
    assert_eq!(calculate_payout(5, 10, 0), 0);
    assert_eq!(calculate_payout(u64::MAX, u64::MAX, 0), 0);
}

#[test]
fn payout_is_exact_beyond_sixty_four_bits() {
    let max: u128 = u64::MAX as u128;
    assert_eq!(calculate_payout(u64::MAX, u64::MAX, 1), max * max);
    assert_eq!(calculate_payout(u64::MAX, u64::MAX, u64::MAX), max);
    assert_eq!(calculate_payout(u64::MAX, u64::MAX, 2), (max * max) / 2);
    assert_eq!(calculate_payout(1 << 63, 6, 4), 3 * (1u128 << 62));
}

#[test]
fn identities_are_the_same_when_all_bytes_agree() {
    let mut bytes: [u8; 32] = [7; 32];
    let one = Identity::new(bytes);
    assert!(one.same_as(&Identity::new([7; 32])));
    assert_eq!(one.to_bytes(), [7; 32]);
    bytes[31] = 8;
    assert!(!one.same_as(&Identity::new(bytes)));
    bytes[31] = 7;
    bytes[0] = 0;
    assert!(!one.same_as(&Identity::new(bytes)));
    assert!(!party(1).same_as(&party(2)));
    assert!(party(2).same_as(&party(2)));
}

#[test]
fn identity_keeps_its_bytes() {
    let mut bytes: [u8; 32] = [0; 32];
    for (place, byte) in bytes.iter_mut().enumerate() {
        *byte = place as u8;
    }
    let id = Identity::new(bytes);
    assert_eq!(id.bytes, bytes);
    assert_eq!(id.to_bytes(), bytes);
}

#[test]
fn sound_market_is_well_formed() {
    assert!(sample_market().is_well_formed());
    let mut resolved = sample_market();
    resolved.resolved = true;
    resolved.winning_outcome = Some(2);
    assert!(resolved.is_well_formed());
}

#[test]
fn market_with_a_wrong_total_is_not_well_formed() {
    let mut market = sample_market();
    market.total_pool = 11;
    assert!(!market.is_well_formed());
    market.total_pool = 9;
    assert!(!market.is_well_formed());
}

#[test]
fn market_whose_pools_exceed_the_counter_is_not_well_formed() {
    let mut market = sample_market();
    market.outcome_pools = vec![u64::MAX, 1, 5];
    market.total_pool = 5;
    assert!(!market.is_well_formed());
}

#[test]
fn market_with_a_wrong_number_of_pools_or_outcomes_is_not_well_formed() {
    let mut short = sample_market();
    short.outcome_pools = vec![4, 6];
    assert!(!short.is_well_formed());
    let mut single = sample_market();
    single.outcomes = vec!["a".to_string()];
    single.outcome_pools = vec![10];
    assert!(!single.is_well_formed());
    let mut crowded = sample_market();
    crowded.outcomes = vec!["x".to_string(); 11];
    crowded.outcome_pools = vec![0; 11];
    crowded.total_pool = 0;
    assert!(!crowded.is_well_formed());
}

#[test]
fn market_with_a_stray_winning_outcome_is_not_well_formed() {
    let mut unresolved_with_winner = sample_market();
    unresolved_with_winner.winning_outcome = Some(0);
    assert!(!unresolved_with_winner.is_well_formed());
    let mut resolved_without_winner = sample_market();
    resolved_without_winner.resolved = true;
    assert!(!resolved_without_winner.is_well_formed());
    let mut winner_out_of_range = sample_market();
    winner_out_of_range.resolved = true;
    winner_out_of_range.winning_outcome = Some(3);
    assert!(!winner_out_of_range.is_well_formed());
}

#[test]
fn every_refusal_has_its_message() {
    assert_eq!(ErrorCode::InsufficientOutcomes.message(), "Market needs at least 2 outcomes");
    assert_eq!(ErrorCode::TooManyOutcomes.message(), "Market can have at most 10 outcomes");
    assert_eq!(
        ErrorCode::InvalidResolutionTime.message(),
        "Resolution time must be in the future"
    );
    assert_eq!(ErrorCode::MarketResolved.message(), "Market is already resolved");
    assert_eq!(ErrorCode::BettingClosed.message(), "Betting period has ended");
    assert_eq!(ErrorCode::BetTooSmall.message(), "Bet amount is below minimum");
    assert_eq!(ErrorCode::InvalidOutcome.message(), "Invalid outcome index");
    assert_eq!(ErrorCode::Unauthorized.message(), "Unauthorized");
    assert_eq!(ErrorCode::MarketAlreadyResolved.message(), "Market is already resolved");
    assert_eq!(ErrorCode::TooEarlyToResolve.message(), "Too early to resolve market");
    assert_eq!(ErrorCode::MarketNotResolved.message(), "Market is not resolved yet");
    assert_eq!(ErrorCode::AlreadyClaimed.message(), "Payout already claimed");
    assert_eq!(ErrorCode::LosingBet.message(), "This bet is on a losing outcome");
    assert_eq!(ErrorCode::NoPayoutAvailable.message(), "No payout available");
}
