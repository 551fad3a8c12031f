//! Odds and settlement arithmetic.
//!
//! Acceptance-time odds adjust a bet's base odds by the observed price
//! movement scaled by the variable-odds divisor; the acceptor's required
//! payment and the settlement split (commission, finalizer fee, winner
//! amount) are exact truncating integer formulas.  Divisions truncate
//! toward zero, matching the native signed-division convention.

use vstd::prelude::*;
use vstd::arithmetic::div_mod::{
    lemma_div_is_ordered, lemma_div_nonincreasing, lemma_div_of0, lemma_div_pos_is_pos,
    lemma_fundamental_div_mod,
};
use vstd::arithmetic::mul::{lemma_mul_basics, lemma_mul_upper_bound};
use crate::error::BetError;
use crate::state::{Bet, Direction};

verus! {

/// Signed division truncating toward zero, as native `/` computes it.
pub open spec fn trunc_div(x: int, d: int) -> int
    recommends
        d != 0,
{
    if x == 0 {
        0
    } else if x > 0 && d > 0 {
        x / d
    } else if x < 0 && d < 0 {
        (x * -1) / (d * -1)
    } else if x < 0 {
        ((x * -1) / d) * -1
    } else {
        (x / (d * -1)) * -1
    }
}

/// The effective odds offered to an acceptor when the oracle reports
/// `price`.  Without a variable-odds divisor the base odds stand.  With a
/// divisor, the price change since creation is divided by it; when the
/// target lies above the starting price a rise makes the creator's side
/// more likely and the odds fall, otherwise they rise.
pub open spec fn acceptance_odds_math(bet: Bet, price: int) -> int {
    match bet.variable_odds {
        None => bet.odds as int,
        Some(v) => {
            let price_change = price - bet.start_price;
            let odds_change = if bet.bet_price > bet.start_price {
                -trunc_div(price_change, v as int)
            } else {
                trunc_div(price_change, v as int)
            };
            bet.odds + odds_change
        },
    }
}

/// What an acceptor must pay beyond the stake taken: for each 100 units of
/// stake, `odds - 100` units, truncating.
pub open spec fn required_payment_math(size: int, odds: int) -> int {
    size * (odds - 100) / 100
}

/// The settlement split for one accepted fill.
#[derive(Clone, Copy, Debug, PartialEq, Eq, Structural)]
pub struct Settlement {
    /// True when the creator's side won; the payout then goes to the
    /// creator's payment account, otherwise to the acceptor's.
    pub creator_wins: bool,
    /// The protocol commission taken out of the escrowed stake.
    pub commission: u64,
    /// The fee earned by whoever triggered settlement.
    pub finalizer_fee: u64,
    /// What the winner receives.
    pub winner_amount: u64,
}

/// True exactly when the creator's side of the bet won: the settlement
/// price reached the target on the chosen side, boundary inclusive.
pub open spec fn creator_wins_spec(direction: Direction, bet_price: int, final_price: int) -> bool {
    match direction {
        Direction::Above => final_price >= bet_price,
        Direction::Below => final_price <= bet_price,
    }
}

/// Signed division truncating toward zero, for operands within the 64-bit
/// range the odds arithmetic produces.
fn trunc_div_i128(a: i128, b: i128) -> (q: i128)
    requires
        b != 0,
        -0x1_0000_0000_0000_0000 <= a <= 0x1_0000_0000_0000_0000,
        i64::MIN <= b <= i64::MAX,
    ensures
        q == trunc_div(a as int, b as int),
        -0x1_0000_0000_0000_0000 <= q <= 0x1_0000_0000_0000_0000,
{
    let pa: u128 = if a < 0 { (-a) as u128 } else { a as u128 };
    let da: u128 = if b < 0 { (-b) as u128 } else { b as u128 };
    let qm: u128 = pa / da;
    proof {
        lemma_div_nonincreasing(pa as int, da as int);
        lemma_div_pos_is_pos(pa as int, da as int);
    }
    let neg = (a < 0) != (b < 0);
    if neg {
        -(qm as i128)
    } else {
        qm as i128
    }
}

/// Quotients truncating toward zero respect the order of their dividends
/// when the divisor is positive.
proof fn lemma_trunc_div_ordered(a: int, b: int, d: int)
    requires
        d > 0,
        a <= b,
    ensures
        trunc_div(a, d) <= trunc_div(b, d),
{
    if a >= 0 {
        lemma_div_is_ordered(a, b, d);
        lemma_div_pos_is_pos(a, d);
        lemma_div_pos_is_pos(b, d);
    } else if b <= 0 {
        lemma_div_is_ordered(-b, -a, d);
        lemma_div_pos_is_pos(-a, d);
        lemma_div_pos_is_pos(-b, d);
    } else {
        lemma_div_pos_is_pos(-a, d);
        lemma_div_pos_is_pos(b, d);
    }
}

/// For a variable-odds bet with a positive divisor, the acceptance odds
/// move monotonically in the direction implied by the target price: when
/// the target lies above the starting price a higher current price can
/// only lower the odds, and otherwise it can only raise them.
pub proof fn lemma_acceptance_odds_monotone(bet: Bet, p1: int, p2: int)
    requires
        bet.variable_odds matches Some(v) && v > 0,
        p1 <= p2,
    ensures
        bet.bet_price > bet.start_price ==> acceptance_odds_math(bet, p2) <= acceptance_odds_math(
            bet,
            p1,
        ),
        bet.bet_price <= bet.start_price ==> acceptance_odds_math(bet, p1) <= acceptance_odds_math(
            bet,
            p2,
        ),
{
    let v = bet.variable_odds->Some_0;
    lemma_trunc_div_ordered(p1 - bet.start_price, p2 - bet.start_price, v as int);
}

/// Computes the effective odds offered when the oracle reports
/// `current_price`.  Fails with `InvalidOdds` when the adjusted odds fall
/// below the break-even floor of 100, and with `AmountOverflow` when they
/// exceed what an odds field can hold.
pub fn acceptance_odds(bet: &Bet, current_price: i64) -> (r: Result<i64, BetError>)
    requires
        bet.divisor_ok(),
    ensures
        ({
            let m = acceptance_odds_math(*bet, current_price as int);
            &&& (100 <= m <= i64::MAX ==> r == Ok::<i64, BetError>(m as i64))
            &&& (m < 100 ==> r == Err::<i64, BetError>(BetError::InvalidOdds))
            &&& (m > i64::MAX ==> r == Err::<i64, BetError>(BetError::AmountOverflow))
        }),
{
    let adjusted: i128 = match bet.variable_odds {
        None => bet.odds as i128,
        Some(v) => {
            let price_change: i128 = current_price as i128 - bet.start_price as i128;
            let q: i128 = trunc_div_i128(price_change, v as i128);
            let odds_change: i128 = if bet.bet_price > bet.start_price {
                -q
            } else {
                q
            };
            bet.odds as i128 + odds_change
        },
    };
    if adjusted < 100 {
        Err(BetError::InvalidOdds)
    } else if adjusted > i64::MAX as i128 {
        Err(BetError::AmountOverflow)
    } else {
        Ok(adjusted as i64)
    }
}

/// Computes what the acceptor must pay for taking `size` of the stake at
/// the given odds: `size * (odds - 100) / 100`, truncating.  Taking stake
/// at break-even odds costs nothing.  Fails with `AmountOverflow` when the
/// payment does not fit a balance field.
pub fn required_payment(size: u64, odds: i64) -> (r: Result<u64, BetError>)
    requires
        odds >= 100,
    ensures
        ({
            let m = required_payment_math(size as int, odds as int);
            &&& (m <= u64::MAX ==> r == Ok::<u64, BetError>(m as u64))
            &&& (m > u64::MAX ==> r == Err::<u64, BetError>(BetError::AmountOverflow))
            &&& (odds == 100 ==> r == Ok::<u64, BetError>(0u64))
        }),
{
    let over: u128 = (odds - 100) as u128;
    proof {
        lemma_mul_upper_bound(size as int, u64::MAX as int, over as int, i64::MAX as int);
    }
    let prod: u128 = (size as u128) * over;
    let pay: u128 = prod / 100;
    proof {
        lemma_div_nonincreasing(prod as int, 100);
        lemma_div_pos_is_pos(prod as int, 100);
        lemma_div_of0(100);
        lemma_mul_basics(size as int);
    }
    if pay > u64::MAX as u128 {
        Err(BetError::AmountOverflow)
    } else {
        Ok(pay as u64)
    }
}

/// Splits one accepted fill's escrowed stake at settlement: a commission
/// of one fiftieth, a finalizer fee of a quarter of the commission, and
/// the remainder to the winner.  The three amounts always sum to the
/// stake exactly, so no unit is left behind in escrow.
pub fn settle(direction: Direction, bet_price: i64, bet_size: u64, final_price: i64) -> (r:
    Settlement)
    ensures
        r.commission == bet_size as int / 50,
        r.finalizer_fee == r.commission as int / 4,
        r.winner_amount == bet_size - r.commission - r.finalizer_fee,
        r.commission + r.finalizer_fee + r.winner_amount == bet_size,
        r.creator_wins == creator_wins_spec(direction, bet_price as int, final_price as int),
{
    let commission: u64 = bet_size / 50;
    let finalizer_fee: u64 = commission / 4;
    proof {
        lemma_fundamental_div_mod(bet_size as int, 50);
        lemma_fundamental_div_mod(commission as int, 4);
    }
    let winner_amount: u64 = bet_size - commission - finalizer_fee;
    let creator_wins = match direction {
        Direction::Above => final_price >= bet_price,
        Direction::Below => final_price <= bet_price,
    };
    Settlement { creator_wins, commission, finalizer_fee, winner_amount }
}

} // verus!
