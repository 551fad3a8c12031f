//! The full bet life cycle under native payment: market initialization,
//! creation, acceptance, cancellation and settlement, with the exact
//! balances and failure reasons at each step.

use yoyo_bet::error::BetError;
use yoyo_bet::ids::AccountId;
use yoyo_bet::ledger::{Account, AccountData, Env, Ledger, Rent};
use yoyo_bet::processor::{
    process_accept_bet, process_cancel_bet, process_create_bet, process_finalize_bet,
    process_init_betting_market, AcceptBetKeys, BetTerms, CancelBetKeys, CreateBetKeys,
    FinalizeBetKeys, InitMarketKeys,
};
use yoyo_bet::state::{
    CancelCondition, Direction, OraclePrice, OracleProduct, ORACLE_MAGIC, ORACLE_PRODUCT_KIND,
    ORACLE_VERSION,
};

fn id(n: u64) -> AccountId {
    AccountId::new(n, 0, 0, 0)
}

fn env() -> Env {
    Env {
        program_id: id(1),
        system_program_id: id(2),
        token_program_id: id(3),
        rent_sysvar_id: id(4),
        clock_sysvar_id: id(5),
    }
}

fn rent() -> Rent {
    Rent { lamports_per_byte: 1 }
}

fn wallet(lamports: u64) -> Account {
    Account { owner: id(2), lamports, data: AccountData::Empty { size: 0 } }
}

/// A ledger holding a provisioned native-payment market, an authentic
/// oracle pair reporting price 105, and all the accounts a creator and
/// an acceptor need.
fn market_ledger() -> Ledger {
    let mut l = Ledger::new();
    // The market record space, program-owned.
    l.put(id(10), Account { owner: id(1), lamports: 200, data: AccountData::Empty { size: 130 } });
    // The commission destination.
    l.put(id(11), wallet(10));
    // The oracle pair, owned by the trusted oracle program id(12).
    l.put(
        id(13),
        Account {
            owner: id(12),
            lamports: 1000,
            data: AccountData::OracleProduct(
                OracleProduct {
                    magic: ORACLE_MAGIC,
                    ver: ORACLE_VERSION,
                    atype: ORACLE_PRODUCT_KIND,
                    px_acc: id(14),
                },
            ),
        },
    );
    l.put(
        id(14),
        Account {
            owner: id(12),
            lamports: 5000,
            data: AccountData::OraclePrice(
                OraclePrice { has_current: true, price: 105, conf: 3 },
            ),
        },
    );
    // The creator's payment account.
    l.put(id(21), wallet(500));
    // The bet record space and its funded escrow, program-owned.
    l.put(id(22), Account { owner: id(1), lamports: 1000, data: AccountData::Empty { size: 276 } });
    l.put(id(23), Account { owner: id(1), lamports: 1000, data: AccountData::Empty { size: 0 } });
    // The acceptor's payment account, the fill record space and the
    // fill escrow.
    l.put(id(31), wallet(10_000));
    l.put(id(32), Account { owner: id(1), lamports: 1000, data: AccountData::Empty { size: 145 } });
    l.put(id(33), Account { owner: id(1), lamports: 100, data: AccountData::Empty { size: 0 } });
    // The finalizer's payment account.
    l.put(id(41), wallet(50));
    let r = process_init_betting_market(
        &mut l,
        &env(),
        &init_keys(),
        true,
        &None,
    );
    assert_eq!(r, Ok(()));
    l
}

fn init_keys() -> InitMarketKeys {
    InitMarketKeys {
        owner: id(20),
        owner_is_signer: true,
        betting_market: id(10),
        commission_fee: id(11),
        pyth_program: id(12),
    }
}

fn create_keys() -> CreateBetKeys {
    CreateBetKeys {
        creator_main: id(20),
        creator_main_is_signer: true,
        creator_payment: id(21),
        bet_state: id(22),
        bet_escrow: id(23),
        betting_market: id(10),
        oracle_product: id(13),
        oracle_price: id(14),
        token_program: id(3),
        system_program: id(2),
    }
}

fn terms() -> BetTerms {
    BetTerms {
        bet_size: 600,
        odds: 150,
        expiration_time: 1000,
        bet_direction: Direction::Above,
        bet_price: 100,
        cancel_condition: CancelCondition { below_price: 50, above_price: 200, time: 900 },
        variable_odds: None,
    }
}

fn accept_keys() -> AcceptBetKeys {
    AcceptBetKeys {
        acceptor_main: id(30),
        acceptor_main_is_signer: true,
        acceptor_payment: id(31),
        bet_state: id(22),
        bet_escrow: id(23),
        accepted_bet_state: id(32),
        accepted_bet_escrow: id(33),
        betting_market: id(10),
        oracle_price: id(14),
        token_program: id(3),
        system_program: id(2),
    }
}

fn cancel_keys() -> CancelBetKeys {
    CancelBetKeys {
        creator_main: id(20),
        creator_main_is_signer: true,
        creator_payment: id(21),
        bet_state: id(22),
        bet_escrow: id(23),
        betting_market: id(10),
        token_program: id(3),
        system_program: id(2),
    }
}

fn finalize_keys() -> FinalizeBetKeys {
    FinalizeBetKeys {
        finalizer_main: id(40),
        finalizer_main_is_signer: true,
        finalizer_payment: id(41),
        commission_fee: id(11),
        bet_state: id(22),
        accepted_bet_state: id(32),
        accepted_bet_escrow: id(33),
        creator_payment: id(21),
        acceptor_payment: id(31),
        betting_market: id(10),
        oracle_price: id(14),
        token_program: id(3),
        system_program: id(2),
    }
}

fn lamports_at(l: &Ledger, a: AccountId) -> u64 {
    l.get(&a).unwrap().lamports
}

#[test]
fn init_market_writes_configuration() {
    let l = market_ledger();
    match l.get(&id(10)).unwrap().data {
        AccountData::Market(m) => {
            assert_eq!(m.owner, id(20));
            assert_eq!(m.fee_commission_account, id(11));
            assert!(m.sol_payment);
            assert_eq!(m.payment_mint, None);
            assert_eq!(m.pyth_program_id, id(12));
        },
        _ => panic!("market record expected"),
    }
}

#[test]
fn init_market_without_mint_rejected() {
    let mut l = market_ledger();
    let r = process_init_betting_market(&mut l, &env(), &init_keys(), false, &None);
    assert_eq!(r, Err(BetError::NoPaymentMintGiven));
}

#[test]
fn init_market_needs_signature() {
    let mut l = market_ledger();
    let mut k = init_keys();
    k.owner_is_signer = false;
    let r = process_init_betting_market(&mut l, &env(), &k, true, &None);
    assert_eq!(r, Err(BetError::IncorrectOwner));
}

#[test]
fn create_samples_start_price_and_zero_accepted() {
    let mut l = market_ledger();
    let r = process_create_bet(&mut l, &env(), &rent(), &create_keys(), &terms());
    assert_eq!(r, Ok(()));
    match l.get(&id(22)).unwrap().data {
        AccountData::BetState(b) => {
            assert!(b.is_initialized);
            assert_eq!(b.start_price, 105);
            assert_eq!(b.total_amount_accepted, 0);
            assert!(!b.cancelled);
            assert_eq!(b.odds, 150);
            assert_eq!(b.bet_escrow_account, id(23));
        },
        _ => panic!("bet record expected"),
    }
}

#[test]
fn create_rejects_low_odds() {
    let mut l = market_ledger();
    let mut t = terms();
    t.odds = 99;
    let r = process_create_bet(&mut l, &env(), &rent(), &create_keys(), &t);
    assert_eq!(r, Err(BetError::InvalidOdds));
}

#[test]
fn create_needs_signature() {
    let mut l = market_ledger();
    let mut k = create_keys();
    k.creator_main_is_signer = false;
    let r = process_create_bet(&mut l, &env(), &rent(), &k, &terms());
    assert_eq!(r, Err(BetError::IncorrectSigner));
}

#[test]
fn create_needs_rent_exemption() {
    let mut l = market_ledger();
    // 275 native units cannot cover 276 bytes of record storage.
    l.put(id(22), Account { owner: id(1), lamports: 275, data: AccountData::Empty { size: 276 } });
    let r = process_create_bet(&mut l, &env(), &rent(), &create_keys(), &terms());
    assert_eq!(r, Err(BetError::NotRentExempt));
}

#[test]
fn create_rejects_undersized_record_space() {
    let mut l = market_ledger();
    l.put(id(22), Account { owner: id(1), lamports: 1000, data: AccountData::Empty { size: 100 } });
    let r = process_create_bet(&mut l, &env(), &rent(), &create_keys(), &terms());
    assert_eq!(r, Err(BetError::DataTypeMismatch));
}

#[test]
fn create_rejects_foreign_record_account() {
    let mut l = market_ledger();
    l.put(id(22), Account { owner: id(9), lamports: 1000, data: AccountData::Empty { size: 276 } });
    let r = process_create_bet(&mut l, &env(), &rent(), &create_keys(), &terms());
    assert_eq!(r, Err(BetError::IncorrectOwner));
}

#[test]
fn create_rejects_underfunded_escrow() {
    let mut l = market_ledger();
    let mut t = terms();
    t.bet_size = 1001;
    let r = process_create_bet(&mut l, &env(), &rent(), &create_keys(), &t);
    assert_eq!(r, Err(BetError::AmountUnderflow));
}

#[test]
fn create_rejects_wrong_program_identities() {
    let mut l = market_ledger();
    let mut k = create_keys();
    k.system_program = id(99);
    assert_eq!(
        process_create_bet(&mut l, &env(), &rent(), &k, &terms()),
        Err(BetError::InvalidSystemProgram)
    );
    let mut k2 = create_keys();
    k2.token_program = id(99);
    assert_eq!(
        process_create_bet(&mut l, &env(), &rent(), &k2, &terms()),
        Err(BetError::InvalidSystemProgram)
    );
}

#[test]
fn create_rejects_untrusted_oracle() {
    let mut l = market_ledger();
    // Product account owned by a program other than the market's oracle.
    l.put(
        id(13),
        Account {
            owner: id(99),
            lamports: 1000,
            data: AccountData::OracleProduct(
                OracleProduct {
                    magic: ORACLE_MAGIC,
                    ver: ORACLE_VERSION,
                    atype: ORACLE_PRODUCT_KIND,
                    px_acc: id(14),
                },
            ),
        },
    );
    let r = process_create_bet(&mut l, &env(), &rent(), &create_keys(), &terms());
    assert_eq!(r, Err(BetError::InvalidOracleConfig));
}

#[test]
fn create_rejects_mismatched_oracle_pair() {
    let mut l = market_ledger();
    l.put(
        id(13),
        Account {
            owner: id(12),
            lamports: 1000,
            data: AccountData::OracleProduct(
                OracleProduct {
                    magic: ORACLE_MAGIC,
                    ver: ORACLE_VERSION,
                    atype: ORACLE_PRODUCT_KIND,
                    px_acc: id(99),
                },
            ),
        },
    );
    let r = process_create_bet(&mut l, &env(), &rent(), &create_keys(), &terms());
    assert_eq!(r, Err(BetError::InvalidOracleConfig));
}

#[test]
fn create_rejects_stale_oracle_price() {
    let mut l = market_ledger();
    l.put(
        id(14),
        Account {
            owner: id(12),
            lamports: 5000,
            data: AccountData::OraclePrice(
                OraclePrice { has_current: false, price: 105, conf: 3 },
            ),
        },
    );
    let r = process_create_bet(&mut l, &env(), &rent(), &create_keys(), &terms());
    assert_eq!(r, Err(BetError::InvalidPriceAccount));
}

#[test]
fn create_twice_already_initialized() {
    let mut l = market_ledger();
    assert_eq!(process_create_bet(&mut l, &env(), &rent(), &create_keys(), &terms()), Ok(()));
    let r = process_create_bet(&mut l, &env(), &rent(), &create_keys(), &terms());
    assert_eq!(r, Err(BetError::AccountAlreadyInitialized));
}

#[test]
fn accept_moves_stake_and_payment() {
    let mut l = market_ledger();
    assert_eq!(process_create_bet(&mut l, &env(), &rent(), &create_keys(), &terms()), Ok(()));
    let r = process_accept_bet(&mut l, &env(), &rent(), &accept_keys(), 500, 200);
    assert_eq!(r, Ok(()));
    // 200 of the stake left the bet escrow; at odds 150 the acceptor
    // paid 100 on top into the fill escrow.
    assert_eq!(lamports_at(&l, id(23)), 800);
    assert_eq!(lamports_at(&l, id(33)), 400);
    assert_eq!(lamports_at(&l, id(31)), 9_900);
    match l.get(&id(32)).unwrap().data {
        AccountData::AcceptedState(a) => {
            assert_eq!(a.bet, id(22));
            assert_eq!(a.accepted_bet_escrow_account, id(33));
            assert_eq!(a.odds, 150);
            assert_eq!(a.bet_size, 200);
            assert!(!a.finalized);
        },
        _ => panic!("fill record expected"),
    }
}

#[test]
fn accept_rejects_price_outside_band() {
    let mut l = market_ledger();
    assert_eq!(process_create_bet(&mut l, &env(), &rent(), &create_keys(), &terms()), Ok(()));
    l.put(
        id(14),
        Account {
            owner: id(12),
            lamports: 5000,
            data: AccountData::OraclePrice(
                OraclePrice { has_current: true, price: 201, conf: 3 },
            ),
        },
    );
    let r = process_accept_bet(&mut l, &env(), &rent(), &accept_keys(), 500, 200);
    assert_eq!(r, Err(BetError::BetNoLongerValid));
}

#[test]
fn accept_rejects_late_submission() {
    let mut l = market_ledger();
    assert_eq!(process_create_bet(&mut l, &env(), &rent(), &create_keys(), &terms()), Ok(()));
    // Past the cancel condition's deadline of 900.
    let r = process_accept_bet(&mut l, &env(), &rent(), &accept_keys(), 901, 200);
    assert_eq!(r, Err(BetError::BetNoLongerValid));
}

#[test]
fn accept_rejects_mismatched_references() {
    let mut l = market_ledger();
    assert_eq!(process_create_bet(&mut l, &env(), &rent(), &create_keys(), &terms()), Ok(()));
    let mut k = accept_keys();
    k.bet_escrow = id(99);
    let r = process_accept_bet(&mut l, &env(), &rent(), &k, 500, 200);
    assert_eq!(r, Err(BetError::InvalidAccounts));
}

#[test]
fn accept_rejects_overfull_fill_escrow() {
    let mut l = market_ledger();
    assert_eq!(process_create_bet(&mut l, &env(), &rent(), &create_keys(), &terms()), Ok(()));
    l.put(
        id(33),
        Account { owner: id(1), lamports: u64::MAX, data: AccountData::Empty { size: 0 } },
    );
    let r = process_accept_bet(&mut l, &env(), &rent(), &accept_keys(), 500, 200);
    assert_eq!(r, Err(BetError::AmountOverflow));
    // The failure left every balance untouched.
    assert_eq!(lamports_at(&l, id(23)), 1000);
    assert_eq!(lamports_at(&l, id(31)), 10_000);
}

#[test]
fn cancel_refunds_escrow_and_marks_record() {
    let mut l = market_ledger();
    assert_eq!(process_create_bet(&mut l, &env(), &rent(), &create_keys(), &terms()), Ok(()));
    let r = process_cancel_bet(&mut l, &env(), &cancel_keys());
    assert_eq!(r, Ok(()));
    assert_eq!(lamports_at(&l, id(23)), 0);
    assert_eq!(lamports_at(&l, id(21)), 1_500);
    match l.get(&id(22)).unwrap().data {
        AccountData::BetState(b) => assert!(b.cancelled),
        _ => panic!("bet record expected"),
    }
}

#[test]
fn cancel_only_by_creator() {
    let mut l = market_ledger();
    assert_eq!(process_create_bet(&mut l, &env(), &rent(), &create_keys(), &terms()), Ok(()));
    let mut k = cancel_keys();
    k.creator_main = id(99);
    let r = process_cancel_bet(&mut l, &env(), &k);
    assert_eq!(r, Err(BetError::InvalidAccounts));
}

#[test]
fn cancel_then_accept_reports_bet_cancelled() {
    let mut l = market_ledger();
    assert_eq!(process_create_bet(&mut l, &env(), &rent(), &create_keys(), &terms()), Ok(()));
    assert_eq!(process_cancel_bet(&mut l, &env(), &cancel_keys()), Ok(()));
    let r = process_accept_bet(&mut l, &env(), &rent(), &accept_keys(), 500, 200);
    assert_eq!(r, Err(BetError::BetCancelled));
}

#[test]
fn finalize_pays_commission_fee_and_winner() {
    let mut l = market_ledger();
    assert_eq!(process_create_bet(&mut l, &env(), &rent(), &create_keys(), &terms()), Ok(()));
    assert_eq!(process_accept_bet(&mut l, &env(), &rent(), &accept_keys(), 500, 200), Ok(()));
    let r = process_finalize_bet(&mut l, &env(), &finalize_keys(), 1500);
    assert_eq!(r, Ok(()));
    // Settlement price 105 is at or above the target 100, so the
    // creator's side won a 200-unit fill: commission 4, fee 1, winner 195.
    assert_eq!(lamports_at(&l, id(11)), 14);
    assert_eq!(lamports_at(&l, id(41)), 51);
    assert_eq!(lamports_at(&l, id(21)), 695);
    assert_eq!(lamports_at(&l, id(33)), 200);
    match l.get(&id(32)).unwrap().data {
        AccountData::AcceptedState(a) => assert!(a.finalized),
        _ => panic!("fill record expected"),
    }
}

#[test]
fn finalize_pays_acceptor_when_price_misses_target() {
    let mut l = market_ledger();
    assert_eq!(process_create_bet(&mut l, &env(), &rent(), &create_keys(), &terms()), Ok(()));
    assert_eq!(process_accept_bet(&mut l, &env(), &rent(), &accept_keys(), 500, 200), Ok(()));
    // The oracle now reports 99, below the target 100.
    l.put(
        id(14),
        Account {
            owner: id(12),
            lamports: 5000,
            data: AccountData::OraclePrice(
                OraclePrice { has_current: true, price: 99, conf: 3 },
            ),
        },
    );
    let r = process_finalize_bet(&mut l, &env(), &finalize_keys(), 1500);
    assert_eq!(r, Ok(()));
    assert_eq!(lamports_at(&l, id(31)), 10_095);
    assert_eq!(lamports_at(&l, id(21)), 500);
}

#[test]
fn finalize_before_expiry_rejected() {
    let mut l = market_ledger();
    assert_eq!(process_create_bet(&mut l, &env(), &rent(), &create_keys(), &terms()), Ok(()));
    assert_eq!(process_accept_bet(&mut l, &env(), &rent(), &accept_keys(), 500, 200), Ok(()));
    let r = process_finalize_bet(&mut l, &env(), &finalize_keys(), 999);
    assert_eq!(r, Err(BetError::BeforeExpiryTime));
}

#[test]
fn finalize_twice_reports_bet_finalized_and_changes_nothing() {
    let mut l = market_ledger();
    assert_eq!(process_create_bet(&mut l, &env(), &rent(), &create_keys(), &terms()), Ok(()));
    assert_eq!(process_accept_bet(&mut l, &env(), &rent(), &accept_keys(), 500, 200), Ok(()));
    assert_eq!(process_finalize_bet(&mut l, &env(), &finalize_keys(), 1500), Ok(()));
    let escrow_before = lamports_at(&l, id(33));
    let commission_before = lamports_at(&l, id(11));
    let r = process_finalize_bet(&mut l, &env(), &finalize_keys(), 2000);
    assert_eq!(r, Err(BetError::BetFinalized));
    assert_eq!(lamports_at(&l, id(33)), escrow_before);
    assert_eq!(lamports_at(&l, id(11)), commission_before);
}

#[test]
fn finalize_rejects_wrong_commission_account() {
    let mut l = market_ledger();
    assert_eq!(process_create_bet(&mut l, &env(), &rent(), &create_keys(), &terms()), Ok(()));
    assert_eq!(process_accept_bet(&mut l, &env(), &rent(), &accept_keys(), 500, 200), Ok(()));
    let mut k = finalize_keys();
    k.commission_fee = id(99);
    let r = process_finalize_bet(&mut l, &env(), &k, 1500);
    assert_eq!(r, Err(BetError::InvalidAccounts));
}

#[test]
fn accept_with_variable_odds_locks_adjusted_value() {
    let mut l = market_ledger();
    let mut t = terms();
    // Target 100 is below the starting price 105, so a rise raises the
    // odds: price unchanged at 105 keeps them at 150.
    t.variable_odds = Some(10);
    assert_eq!(process_create_bet(&mut l, &env(), &rent(), &create_keys(), &t), Ok(()));
    l.put(
        id(14),
        Account {
            owner: id(12),
            lamports: 5000,
            data: AccountData::OraclePrice(
                OraclePrice { has_current: true, price: 125, conf: 3 },
            ),
        },
    );
    // Price rose by 20: two divisor steps, odds 152; payment 200*52/100.
    assert_eq!(process_accept_bet(&mut l, &env(), &rent(), &accept_keys(), 500, 200), Ok(()));
    match l.get(&id(32)).unwrap().data {
        AccountData::AcceptedState(a) => assert_eq!(a.odds, 152),
        _ => panic!("fill record expected"),
    }
    assert_eq!(lamports_at(&l, id(31)), 10_000 - 104);
}

#[test]
fn accept_rejects_odds_fallen_below_floor() {
    let mut l = market_ledger();
    let mut t = terms();
    // Base odds at the floor, target above the start, so any rise
    // pushes the acceptance odds under 100.
    t.odds = 100;
    t.bet_price = 200;
    t.variable_odds = Some(10);
    assert_eq!(process_create_bet(&mut l, &env(), &rent(), &create_keys(), &t), Ok(()));
    l.put(
        id(14),
        Account {
            owner: id(12),
            lamports: 5000,
            data: AccountData::OraclePrice(
                OraclePrice { has_current: true, price: 115, conf: 3 },
            ),
        },
    );
    let r = process_accept_bet(&mut l, &env(), &rent(), &accept_keys(), 500, 200);
    assert_eq!(r, Err(BetError::InvalidOdds));
}

#[test]
fn accept_missing_account_reported() {
    let mut l = Ledger::new();
    let r = process_accept_bet(&mut l, &env(), &rent(), &accept_keys(), 500, 200);
    assert_eq!(r, Err(BetError::InvalidAccountInput));
}
