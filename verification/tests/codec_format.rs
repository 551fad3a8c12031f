//! The fixed-width byte layouts: record and payload round trips, size
//! rejection, canonicality, the builders' account lists, and the stable
//! error codes.

use yoyo_bet::error::BetError;
use yoyo_bet::ids::AccountId;
use yoyo_bet::instruction::{
    accept_bet, create_bet, init_betting_market, AcceptBetArgs, BetInstruction, CreateBetArgs,
    InitBettingMarketArgs,
};
use yoyo_bet::ledger::Env;
use yoyo_bet::state::{
    AcceptedBet, Bet, BettingMarket, CancelCondition, Direction, ACCEPTED_RECORD_LEN,
    BET_RECORD_LEN, MARKET_RECORD_LEN,
};

fn id(n: u64) -> AccountId {
    AccountId::new(n, 7, 11, u64::MAX - n)
}

fn env() -> Env {
    Env {
        program_id: id(1),
        system_program_id: id(2),
        token_program_id: id(3),
        rent_sysvar_id: id(4),
        clock_sysvar_id: id(5),
    }
}

fn sample_bet() -> Bet {
    Bet {
        is_initialized: true,
        betting_market: id(10),
        creator_main_account: id(20),
        creator_payment_account: id(21),
        bet_escrow_account: id(23),
        odds: 175,
        bet_size: 987_654_321,
        pyth_oracle_product_account: id(13),
        pyth_oracle_price_account: id(14),
        expiration_time: -5,
        bet_direction: Direction::Below,
        bet_price: -1_000_000,
        start_price: i64::MIN,
        cancel_condition: CancelCondition {
            below_price: -3,
            above_price: i64::MAX,
            time: 900,
        },
        variable_odds: Some(-17),
        total_amount_accepted: 0,
        cancelled: false,
    }
}

#[test]
fn bet_record_round_trips() {
    let b = sample_bet();
    let bytes = b.to_bytes();
    assert_eq!(bytes.len(), BET_RECORD_LEN as usize);
    assert_eq!(Bet::from_account_info(&bytes), Ok(b));
}

#[test]
fn bet_record_without_variable_odds_round_trips() {
    let mut b = sample_bet();
    b.variable_odds = None;
    b.cancelled = true;
    let bytes = b.to_bytes();
    assert_eq!(Bet::from_account_info(&bytes), Ok(b));
}

#[test]
fn undersized_bet_storage_rejected() {
    let b = sample_bet();
    let mut bytes = b.to_bytes();
    bytes.pop();
    assert_eq!(Bet::from_account_info(&bytes), Err(BetError::DataTypeMismatch));
}

#[test]
fn oversized_bet_storage_reads_the_record_prefix() {
    let b = sample_bet();
    let mut bytes = b.to_bytes();
    bytes.push(0xff);
    bytes.push(0xff);
    assert_eq!(Bet::from_account_info(&bytes), Ok(b));
}

#[test]
fn non_boolean_bet_byte_rejected() {
    let b = sample_bet();
    let mut bytes = b.to_bytes();
    bytes[0] = 2;
    assert_eq!(Bet::from_account_info(&bytes), Err(BetError::DataTypeMismatch));
}

#[test]
fn non_canonical_absent_field_rejected() {
    let mut b = sample_bet();
    b.variable_odds = None;
    let mut bytes = b.to_bytes();
    // The presence flag says absent, but the padding is not zero.
    bytes[260] = 1;
    assert_eq!(Bet::from_account_info(&bytes), Err(BetError::DataTypeMismatch));
}

#[test]
fn market_record_round_trips() {
    let m = BettingMarket {
        owner: id(20),
        fee_commission_account: id(11),
        sol_payment: false,
        payment_mint: Some(id(50)),
        pyth_program_id: id(12),
    };
    let bytes = m.to_bytes();
    assert_eq!(bytes.len(), MARKET_RECORD_LEN as usize);
    assert_eq!(BettingMarket::from_account_info(&bytes), Ok(m));
}

#[test]
fn market_record_native_round_trips() {
    let m = BettingMarket {
        owner: id(20),
        fee_commission_account: id(11),
        sol_payment: true,
        payment_mint: None,
        pyth_program_id: id(12),
    };
    let bytes = m.to_bytes();
    assert_eq!(BettingMarket::from_account_info(&bytes), Ok(m));
    assert_eq!(
        BettingMarket::from_account_info(&bytes[..(MARKET_RECORD_LEN as usize) - 1]),
        Err(BetError::DataTypeMismatch)
    );
}

#[test]
fn accepted_record_round_trips() {
    let a = AcceptedBet {
        bet: id(22),
        accepted_bet_escrow_account: id(33),
        acceptor_main_account: id(30),
        acceptor_payment_account: id(31),
        odds: 150,
        bet_size: 200,
        finalized: true,
    };
    let bytes = a.to_bytes();
    assert_eq!(bytes.len(), ACCEPTED_RECORD_LEN as usize);
    assert_eq!(AcceptedBet::from_account_info(&bytes), Ok(a));
    assert_eq!(
        AcceptedBet::from_account_info(&bytes[..10]),
        Err(BetError::DataTypeMismatch)
    );
}

#[test]
fn payloads_round_trip() {
    let cases = [
        BetInstruction::InitBettingMarket(
            InitBettingMarketArgs { sol_payment: false, payment_mint: Some(id(50)) },
        ),
        BetInstruction::InitBettingMarket(
            InitBettingMarketArgs { sol_payment: true, payment_mint: None },
        ),
        BetInstruction::CreateBet(
            CreateBetArgs {
                bet_size: 600,
                odds: 150,
                expiration_time: 1000,
                bet_direction: Direction::Above,
                bet_price: 100,
                cancel_condition: CancelCondition {
                    below_price: 50,
                    above_price: 200,
                    time: 900,
                },
                variable_odds: Some(10),
            },
        ),
        BetInstruction::AcceptBet(AcceptBetArgs { bet_size: 200 }),
        BetInstruction::CancelBet(),
        BetInstruction::FinalizeBet(),
    ];
    for c in cases {
        let bytes = c.to_bytes();
        assert_eq!(BetInstruction::from_bytes(&bytes), Ok(c));
    }
}

#[test]
fn unknown_tag_rejected() {
    assert_eq!(BetInstruction::from_bytes(&[9]), Err(BetError::InvalidInstruction));
    assert_eq!(BetInstruction::from_bytes(&[]), Err(BetError::InvalidInstruction));
}

#[test]
fn trailing_bytes_rejected() {
    let mut bytes = BetInstruction::CancelBet().to_bytes();
    bytes.push(0);
    assert_eq!(BetInstruction::from_bytes(&bytes), Err(BetError::InvalidInstruction));
}

#[test]
fn init_builder_lays_out_accounts() {
    let ix = init_betting_market(id(1), id(20), id(10), id(11), id(12), true, None);
    assert_eq!(ix.program_id, id(1));
    let ids: Vec<AccountId> = ix.accounts.iter().map(|m| m.id).collect();
    assert_eq!(ids, vec![id(20), id(10), id(11), id(12)]);
    assert!(ix.accounts[0].is_signer);
    assert!(!ix.accounts[2].is_writable);
    assert_eq!(
        BetInstruction::from_bytes(&ix.data),
        Ok(
            BetInstruction::InitBettingMarket(
                InitBettingMarketArgs { sol_payment: true, payment_mint: None },
            ),
        )
    );
}

#[test]
fn create_builder_lays_out_accounts() {
    let cc = CancelCondition { below_price: 50, above_price: 200, time: 900 };
    let ix = create_bet(
        &env(),
        id(20),
        id(21),
        id(22),
        id(23),
        id(10),
        id(13),
        id(14),
        600,
        150,
        1000,
        Direction::Above,
        100,
        cc,
        None,
    );
    assert_eq!(ix.program_id, id(1));
    let ids: Vec<AccountId> = ix.accounts.iter().map(|m| m.id).collect();
    assert_eq!(
        ids,
        vec![
            id(20),
            id(21),
            id(22),
            id(23),
            id(10),
            id(13),
            id(14),
            id(4),
            id(3),
            id(2),
        ]
    );
    assert!(ix.accounts[0].is_signer);
    match BetInstruction::from_bytes(&ix.data) {
        Ok(BetInstruction::CreateBet(a)) => {
            assert_eq!(a.bet_size, 600);
            assert_eq!(a.odds, 150);
            assert_eq!(a.cancel_condition, cc);
            assert_eq!(a.variable_odds, None);
        },
        other => panic!("creation payload expected, got {:?}", other),
    }
}

#[test]
fn accept_builder_lays_out_accounts() {
    let ix = accept_bet(&env(), id(30), id(31), id(22), id(23), id(32), id(33), id(10), id(14), 200);
    let ids: Vec<AccountId> = ix.accounts.iter().map(|m| m.id).collect();
    assert_eq!(
        ids,
        vec![
            id(30),
            id(31),
            id(22),
            id(23),
            id(32),
            id(33),
            id(10),
            id(14),
            id(4),
            id(3),
            id(2),
            id(5),
        ]
    );
    assert_eq!(
        BetInstruction::from_bytes(&ix.data),
        Ok(BetInstruction::AcceptBet(AcceptBetArgs { bet_size: 200 }))
    );
}

#[test]
fn error_codes_are_stable() {
    let all = [
        BetError::InvalidInstruction,
        BetError::IncorrectSigner,
        BetError::NotRentExempt,
        BetError::InvalidMint,
        BetError::ExpectedAmountMismatch,
        BetError::UnauthorizedAccount,
        BetError::IncorrectOwner,
        BetError::IsNotTokenAccount,
        BetError::AccountAlreadyInitialized,
        BetError::InvalidAccounts,
        BetError::InvalidBetAccount,
        BetError::InvalidSystemProgram,
        BetError::AmountOverflow,
        BetError::AmountUnderflow,
        BetError::DataTypeMismatch,
        BetError::InvalidPriceAccount,
        BetError::InvalidAccountInput,
        BetError::InvalidOracleConfig,
        BetError::NoPaymentMintGiven,
        BetError::BetNoLongerValid,
        BetError::InvalidOdds,
        BetError::BetCancelled,
        BetError::BetFinalized,
        BetError::BeforeExpiryTime,
    ];
    for (i, e) in all.iter().enumerate() {
        assert_eq!(e.error_code() as usize, i);
    }
    assert_eq!(BetError::InvalidOdds.description(), "Invalid odds");
    assert_eq!(BetError::BetCancelled.description(), "Bet cancelled");
}
