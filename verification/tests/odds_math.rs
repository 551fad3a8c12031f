//! The odds-engine arithmetic: acceptance odds, required payment, and
//! the settlement split.

use yoyo_bet::error::BetError;
use yoyo_bet::odds::{acceptance_odds, required_payment, settle};
use yoyo_bet::state::{Bet, CancelCondition, Direction};
use yoyo_bet::ids::AccountId;

fn id(n: u64) -> AccountId {
    AccountId::new(n, 0, 0, 0)
}

fn sample_bet(odds: i64, start_price: i64, bet_price: i64, variable_odds: Option<i64>) -> Bet {
    Bet {
        is_initialized: true,
        betting_market: id(10),
        creator_main_account: id(20),
        creator_payment_account: id(21),
        bet_escrow_account: id(23),
        odds,
        bet_size: 1000,
        pyth_oracle_product_account: id(13),
        pyth_oracle_price_account: id(14),
        expiration_time: 1000,
        bet_direction: Direction::Above,
        bet_price,
        start_price,
        cancel_condition: CancelCondition { below_price: 0, above_price: 1_000_000, time: 900 },
        variable_odds,
        total_amount_accepted: 0,
        cancelled: false,
    }
}

#[test]
fn required_payment_at_break_even_is_zero() {
    for size in [0u64, 1, 7, 100, 12345, u64::MAX] {
        assert_eq!(required_payment(size, 100), Ok(0));
    }
}

#[test]
fn required_payment_half_bet_at_150() {
    assert_eq!(required_payment(100, 150), Ok(50));
}

#[test]
fn required_payment_truncates() {
    // 33 * 50 / 100 = 16.5, truncating to 16.
    assert_eq!(required_payment(33, 150), Ok(16));
    // Even odds double the stake.
    assert_eq!(required_payment(250, 200), Ok(250));
}

#[test]
fn required_payment_overflow_is_reported() {
    assert_eq!(required_payment(u64::MAX, i64::MAX), Err(BetError::AmountOverflow));
}

#[test]
fn fixed_odds_pass_through() {
    let b = sample_bet(150, 100, 200, None);
    assert_eq!(acceptance_odds(&b, 100), Ok(150));
    assert_eq!(acceptance_odds(&b, 99999), Ok(150));
}

#[test]
fn variable_odds_fall_as_price_approaches_target_above() {
    // Target above start: each 10 units of rise cost one odds point.
    let b = sample_bet(150, 100, 200, Some(10));
    assert_eq!(acceptance_odds(&b, 100), Ok(150));
    assert_eq!(acceptance_odds(&b, 150), Ok(145));
    assert_eq!(acceptance_odds(&b, 160), Ok(144));
    // A fall makes the target less likely and raises the odds.
    assert_eq!(acceptance_odds(&b, 50), Ok(155));
}

#[test]
fn variable_odds_rise_with_price_when_target_below_start() {
    // Target at or below start: a rise makes the creator's side less
    // likely and raises the odds.
    let b = sample_bet(150, 100, 50, Some(10));
    assert_eq!(acceptance_odds(&b, 150), Ok(155));
    assert_eq!(acceptance_odds(&b, 50), Ok(145));
}

#[test]
fn variable_odds_truncate_toward_zero() {
    let b = sample_bet(150, 100, 50, Some(10));
    // A change of 9 is less than one divisor step in either direction.
    assert_eq!(acceptance_odds(&b, 109), Ok(150));
    assert_eq!(acceptance_odds(&b, 91), Ok(150));
}

#[test]
fn acceptance_odds_below_floor_rejected() {
    let b = sample_bet(100, 100, 200, Some(10));
    // Ten units of rise push the odds to 99, below the floor.
    assert_eq!(acceptance_odds(&b, 110), Err(BetError::InvalidOdds));
    // At the floor exactly, the odds stand.
    assert_eq!(acceptance_odds(&b, 100), Ok(100));
}

#[test]
fn settlement_split_for_thousand() {
    let s = settle(Direction::Above, 100, 1000, 105);
    assert_eq!(s.commission, 20);
    assert_eq!(s.finalizer_fee, 5);
    assert_eq!(s.winner_amount, 975);
    assert_eq!(s.commission + s.finalizer_fee + s.winner_amount, 1000);
}

#[test]
fn settlement_split_leaks_nothing_over_a_range() {
    for bet_size in 0u64..5000 {
        let s = settle(Direction::Below, 0, bet_size, 0);
        assert_eq!(s.commission, bet_size / 50);
        assert_eq!(s.finalizer_fee, s.commission / 4);
        assert_eq!(s.commission + s.finalizer_fee + s.winner_amount, bet_size);
    }
}

#[test]
fn settlement_boundary_is_inclusive_above() {
    let at_target = settle(Direction::Above, 100, 1000, 100);
    assert!(at_target.creator_wins);
    let below_target = settle(Direction::Above, 100, 1000, 99);
    assert!(!below_target.creator_wins);
}

#[test]
fn settlement_boundary_is_inclusive_below() {
    let at_target = settle(Direction::Below, 100, 1000, 100);
    assert!(at_target.creator_wins);
    let above_target = settle(Direction::Below, 100, 1000, 101);
    assert!(!above_target.creator_wins);
}
