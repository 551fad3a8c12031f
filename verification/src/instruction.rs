//! The transition requests a client submits: a tagged payload plus a
//! positional list of referenced accounts, and the builders that encode
//! them.
//!
//! The payload is one tag byte followed by the arguments' fixed-width
//! encodings (see [`crate::codec`]); a payload that is not exactly one
//! canonical encoding is rejected with `InvalidInstruction`.

use vstd::prelude::*;
use crate::codec::{
    dec_cc, dec_i64, dec_id, dec_u64, enc_bool, enc_cc, enc_dir, enc_i64, enc_opt_i64, enc_opt_id,
    enc_u64, lemma_enc_lens, lemma_prim_roundtrip, push_bool, push_cc, push_dir, push_i64,
    push_opt_i64, push_opt_id, push_u64, read_cc, read_i64, read_id, read_u64, read_u8, zero_id,
};
use crate::error::BetError;
use crate::ids::AccountId;
use crate::ledger::Env;
use crate::state::{CancelCondition, Direction};

verus! {

/// Arguments of a market initialization.
#[derive(Clone, Copy, Debug, PartialEq, Eq, Structural)]
pub struct InitBettingMarketArgs {
    /// True when stakes are paid in native units.
    pub sol_payment: bool,
    /// The fungible asset's identity; required iff `sol_payment` is false.
    pub payment_mint: Option<AccountId>,
}

/// Arguments of a bet creation.
#[derive(Clone, Copy, Debug, PartialEq, Eq, Structural)]
pub struct CreateBetArgs {
    /// The stake the escrow must already hold.
    pub bet_size: u64,
    /// Base odds, scaled by 100; even odds are 200.
    pub odds: i64,
    /// When the bet expires.
    pub expiration_time: i64,
    /// The side of the target price the creator bets on.
    pub bet_direction: Direction,
    /// The price the asset must be above or below at expiration.
    pub bet_price: i64,
    /// Price band and deadline for acceptance.
    pub cancel_condition: CancelCondition,
    /// The price movement that shifts the acceptance odds by one point.
    pub variable_odds: Option<i64>,
}

/// Arguments of an acceptance: how much of the original stake is taken.
/// The acceptor's own payment is derived from the effective odds, not
/// submitted.
#[derive(Clone, Copy, Debug, PartialEq, Eq, Structural)]
pub struct AcceptBetArgs {
    /// The portion of the creator's stake being taken.
    pub bet_size: u64,
}

/// The transition requests the protocol supports, decoded once at the
/// boundary and dispatched exhaustively.
#[derive(Clone, Copy, Debug, PartialEq, Eq, Structural)]
pub enum BetInstruction {
    /// Provision a market configuration.
    InitBettingMarket(InitBettingMarketArgs),
    /// Open a bet.
    CreateBet(CreateBetArgs),
    /// Take part of an open bet's stake.
    AcceptBet(AcceptBetArgs),
    /// Cancel an open bet and refund its escrow.
    CancelBet(),
    /// Settle one accepted fill after expiry.
    FinalizeBet(),
}

/// One referenced account in a submission: its identity, whether it
/// signed, and whether the transition may write it.
#[derive(Clone, Copy, Debug, PartialEq, Eq, Structural)]
pub struct AccountMeta {
    /// The referenced account.
    pub id: AccountId,
    /// Whether this account's key signed the submission.
    pub is_signer: bool,
    /// Whether the transition may write the account.
    pub is_writable: bool,
}

/// A full submission: the program addressed, the ordered account list,
/// and the encoded payload.
#[derive(Clone, Debug)]
pub struct Instruction {
    /// The program the submission addresses.
    pub program_id: AccountId,
    /// The referenced accounts, in the order the transition expects.
    pub accounts: Vec<AccountMeta>,
    /// The encoded tag-plus-arguments payload.
    pub data: Vec<u8>,
}

/// The byte encoding of a transition payload: one tag byte in
/// declaration order, then the arguments' fixed-width encodings.
pub open spec fn enc_instruction(i: BetInstruction) -> Seq<u8> {
    match i {
        BetInstruction::InitBettingMarket(a) => seq![0u8] + enc_bool(a.sol_payment) + enc_opt_id(
            a.payment_mint,
        ),
        BetInstruction::CreateBet(a) => seq![1u8] + enc_u64(a.bet_size) + enc_i64(a.odds)
            + enc_i64(a.expiration_time) + enc_dir(a.bet_direction) + enc_i64(a.bet_price)
            + enc_cc(a.cancel_condition) + enc_opt_i64(a.variable_odds),
        BetInstruction::AcceptBet(a) => seq![2u8] + enc_u64(a.bet_size),
        BetInstruction::CancelBet() => seq![3u8],
        BetInstruction::FinalizeBet() => seq![4u8],
    }
}

/// Byte length of an encoded market-initialization payload.
pub const INIT_MARKET_PAYLOAD_LEN: u64 = 35;

/// Byte length of an encoded bet-creation payload.
pub const CREATE_BET_PAYLOAD_LEN: u64 = 67;

/// Byte length of an encoded acceptance payload.
pub const ACCEPT_BET_PAYLOAD_LEN: u64 = 9;

/// The transition a payload holds, or `InvalidInstruction` when it is
/// not exactly one canonical payload.
pub open spec fn dec_instruction(s: Seq<u8>) -> Result<BetInstruction, BetError> {
    if s.len() < 1 {
        Err(BetError::InvalidInstruction)
    } else {
        let tag = s[0];
        if tag == 0 {
            if s.len() != INIT_MARKET_PAYLOAD_LEN {
                Err(BetError::InvalidInstruction)
            } else {
                let sol = s[1];
                let mflag = s[2];
                if !(sol == 0 || sol == 1) {
                    Err(BetError::InvalidInstruction)
                } else if !(mflag == 0 || mflag == 1) {
                    Err(BetError::InvalidInstruction)
                } else if mflag == 0 && dec_id(s, 3) != zero_id() {
                    Err(BetError::InvalidInstruction)
                } else {
                    Ok(
                        BetInstruction::InitBettingMarket(
                            InitBettingMarketArgs {
                                sol_payment: sol == 1,
                                payment_mint: if mflag == 1 {
                                    Some(dec_id(s, 3))
                                } else {
                                    None
                                },
                            },
                        ),
                    )
                }
            }
        } else if tag == 1 {
            if s.len() != CREATE_BET_PAYLOAD_LEN {
                Err(BetError::InvalidInstruction)
            } else {
                let dir = s[25];
                let vflag = s[58];
                if !(dir == 0 || dir == 1) {
                    Err(BetError::InvalidInstruction)
                } else if !(vflag == 0 || vflag == 1) {
                    Err(BetError::InvalidInstruction)
                } else if vflag == 0 && dec_i64(s, 59) != 0i64 {
                    Err(BetError::InvalidInstruction)
                } else {
                    Ok(
                        BetInstruction::CreateBet(
                            CreateBetArgs {
                                bet_size: dec_u64(s, 1),
                                odds: dec_i64(s, 9),
                                expiration_time: dec_i64(s, 17),
                                bet_direction: if dir == 0 {
                                    Direction::Above
                                } else {
                                    Direction::Below
                                },
                                bet_price: dec_i64(s, 26),
                                cancel_condition: dec_cc(s, 34),
                                variable_odds: if vflag == 1 {
                                    Some(dec_i64(s, 59))
                                } else {
                                    None
                                },
                            },
                        ),
                    )
                }
            }
        } else if tag == 2 {
            if s.len() != ACCEPT_BET_PAYLOAD_LEN {
                Err(BetError::InvalidInstruction)
            } else {
                Ok(BetInstruction::AcceptBet(AcceptBetArgs { bet_size: dec_u64(s, 1) }))
            }
        } else if tag == 3 {
            if s.len() != 1 {
                Err(BetError::InvalidInstruction)
            } else {
                Ok(BetInstruction::CancelBet())
            }
        } else if tag == 4 {
            if s.len() != 1 {
                Err(BetError::InvalidInstruction)
            } else {
                Ok(BetInstruction::FinalizeBet())
            }
        } else {
            Err(BetError::InvalidInstruction)
        }
    }
}

/// Decoding an encoded payload recovers the transition exactly.
#[verifier::spinoff_prover]
pub proof fn lemma_instruction_roundtrip(i: BetInstruction)
    ensures
        dec_instruction(enc_instruction(i)) == Ok::<BetInstruction, BetError>(i),
{
    lemma_enc_lens();
    lemma_prim_roundtrip();
    let s = enc_instruction(i);
    match i {
        BetInstruction::InitBettingMarket(a) => {
            let mint = match a.payment_mint {
                Some(x) => x,
                None => zero_id(),
            };
            assert(s.subrange(3, 11) =~= enc_u64(mint.w0));
            assert(s.subrange(11, 19) =~= enc_u64(mint.w1));
            assert(s.subrange(19, 27) =~= enc_u64(mint.w2));
            assert(s.subrange(27, 35) =~= enc_u64(mint.w3));
        },
        BetInstruction::CreateBet(a) => {
            let vo = match a.variable_odds {
                Some(x) => x,
                None => 0i64,
            };
            assert(s.subrange(1, 9) =~= enc_u64(a.bet_size));
            assert(s.subrange(9, 17) =~= enc_i64(a.odds));
            assert(s.subrange(17, 25) =~= enc_i64(a.expiration_time));
            assert(s.subrange(26, 34) =~= enc_i64(a.bet_price));
            assert(s.subrange(34, 42) =~= enc_i64(a.cancel_condition.below_price));
            assert(s.subrange(42, 50) =~= enc_i64(a.cancel_condition.above_price));
            assert(s.subrange(50, 58) =~= enc_i64(a.cancel_condition.time));
            assert(s.subrange(59, 67) =~= enc_i64(vo));
        },
        BetInstruction::AcceptBet(a) => {
            assert(s.subrange(1, 9) =~= enc_u64(a.bet_size));
        },
        BetInstruction::CancelBet() => {},
        BetInstruction::FinalizeBet() => {},
    }
}

impl BetInstruction {
    /// Encodes the transition into its tag-plus-arguments payload.
    pub fn to_bytes(&self) -> (v: Vec<u8>)
        ensures
            v@ == enc_instruction(*self),
    {
        let mut v: Vec<u8> = Vec::new();
        match self {
            BetInstruction::InitBettingMarket(a) => {
                v.push(0);
                push_bool(&mut v, a.sol_payment);
                push_opt_id(&mut v, &a.payment_mint);
            },
            BetInstruction::CreateBet(a) => {
                v.push(1);
                push_u64(&mut v, a.bet_size);
                push_i64(&mut v, a.odds);
                push_i64(&mut v, a.expiration_time);
                push_dir(&mut v, a.bet_direction);
                push_i64(&mut v, a.bet_price);
                push_cc(&mut v, &a.cancel_condition);
                push_opt_i64(&mut v, &a.variable_odds);
            },
            BetInstruction::AcceptBet(a) => {
                v.push(2);
                push_u64(&mut v, a.bet_size);
            },
            BetInstruction::CancelBet() => {
                v.push(3);
            },
            BetInstruction::FinalizeBet() => {
                v.push(4);
            },
        }
        proof {
            assert(v@ =~= enc_instruction(*self));
        }
        v
    }

    /// Decodes a payload, rejecting anything but exactly one canonical
    /// payload with `InvalidInstruction`.
    pub fn from_bytes(data: &[u8]) -> (r: Result<BetInstruction, BetError>)
        ensures
            r == dec_instruction(data@),
    {
        let n = data.len();
        if n < 1 {
            return Err(BetError::InvalidInstruction);
        }
        let tag = read_u8(data, 0);
        if tag == 0 {
            if n != INIT_MARKET_PAYLOAD_LEN as usize {
                return Err(BetError::InvalidInstruction);
            }
            let sol = read_u8(data, 1);
            let mflag = read_u8(data, 2);
            if !(sol == 0 || sol == 1) {
                return Err(BetError::InvalidInstruction);
            }
            if !(mflag == 0 || mflag == 1) {
                return Err(BetError::InvalidInstruction);
            }
            let mint = read_id(data, 3);
            let z = AccountId { w0: 0, w1: 0, w2: 0, w3: 0 };
            if mflag == 0 && !(mint == z) {
                return Err(BetError::InvalidInstruction);
            }
            Ok(
                BetInstruction::InitBettingMarket(
                    InitBettingMarketArgs {
                        sol_payment: sol == 1,
                        payment_mint: if mflag == 1 {
                            Some(mint)
                        } else {
                            None
                        },
                    },
                ),
            )
        } else if tag == 1 {
            if n != CREATE_BET_PAYLOAD_LEN as usize {
                return Err(BetError::InvalidInstruction);
            }
            let dir = read_u8(data, 25);
            let vflag = read_u8(data, 58);
            if !(dir == 0 || dir == 1) {
                return Err(BetError::InvalidInstruction);
            }
            if !(vflag == 0 || vflag == 1) {
                return Err(BetError::InvalidInstruction);
            }
            let vo = read_i64(data, 59);
            if vflag == 0 && vo != 0 {
                return Err(BetError::InvalidInstruction);
            }
            Ok(
                BetInstruction::CreateBet(
                    CreateBetArgs {
                        bet_size: read_u64(data, 1),
                        odds: read_i64(data, 9),
                        expiration_time: read_i64(data, 17),
                        bet_direction: if dir == 0 {
                            Direction::Above
                        } else {
                            Direction::Below
                        },
                        bet_price: read_i64(data, 26),
                        cancel_condition: read_cc(data, 34),
                        variable_odds: if vflag == 1 {
                            Some(vo)
                        } else {
                            None
                        },
                    },
                ),
            )
        } else if tag == 2 {
            if n != ACCEPT_BET_PAYLOAD_LEN as usize {
                return Err(BetError::InvalidInstruction);
            }
            Ok(BetInstruction::AcceptBet(AcceptBetArgs { bet_size: read_u64(data, 1) }))
        } else if tag == 3 {
            if n != 1 {
                return Err(BetError::InvalidInstruction);
            }
            Ok(BetInstruction::CancelBet())
        } else if tag == 4 {
            if n != 1 {
                return Err(BetError::InvalidInstruction);
            }
            Ok(BetInstruction::FinalizeBet())
        } else {
            Err(BetError::InvalidInstruction)
        }
    }
}

/// Builds a market-initialization submission: the signing owner, the
/// market record account, the commission destination and the trusted
/// oracle program, with the encoded arguments.
pub fn init_betting_market(
    program_id: AccountId,
    owner_account: AccountId,
    betting_market_account: AccountId,
    commission_fee_account: AccountId,
    pyth_program: AccountId,
    sol_payment: bool,
    payment_mint: Option<AccountId>,
) -> (r: Instruction)
    ensures
        r.program_id == program_id,
        r.accounts@ == seq![
            AccountMeta { id: owner_account, is_signer: true, is_writable: true },
            AccountMeta { id: betting_market_account, is_signer: false, is_writable: true },
            AccountMeta { id: commission_fee_account, is_signer: false, is_writable: false },
            AccountMeta { id: pyth_program, is_signer: false, is_writable: false },
        ],
        r.data@ == enc_instruction(
            BetInstruction::InitBettingMarket(InitBettingMarketArgs { sol_payment, payment_mint }),
        ),
{
    let mut accounts: Vec<AccountMeta> = Vec::new();
    accounts.push(AccountMeta { id: owner_account, is_signer: true, is_writable: true });
    accounts.push(AccountMeta { id: betting_market_account, is_signer: false, is_writable: true });
    accounts.push(
        AccountMeta { id: commission_fee_account, is_signer: false, is_writable: false },
    );
    accounts.push(AccountMeta { id: pyth_program, is_signer: false, is_writable: false });
    let data = BetInstruction::InitBettingMarket(
        InitBettingMarketArgs { sol_payment, payment_mint },
    ).to_bytes();
    proof {
        assert(accounts@ =~= seq![
            AccountMeta { id: owner_account, is_signer: true, is_writable: true },
            AccountMeta { id: betting_market_account, is_signer: false, is_writable: true },
            AccountMeta { id: commission_fee_account, is_signer: false, is_writable: false },
            AccountMeta { id: pyth_program, is_signer: false, is_writable: false },
        ]);
    }
    Instruction { program_id, accounts, data }
}

/// Builds a bet-creation submission: the creator pair, the record and
/// escrow accounts, the market, the oracle pair, then the rent schedule
/// and the token and system programs, with the encoded terms.
pub fn create_bet(
    env: &Env,
    creator_main_account: AccountId,
    creator_payment_account: AccountId,
    bet_state_account: AccountId,
    bet_escrow_account: AccountId,
    betting_market_account: AccountId,
    pyth_oracle_product_account: AccountId,
    pyth_oracle_price_account: AccountId,
    bet_size: u64,
    odds: i64,
    expiration_time: i64,
    bet_direction: Direction,
    bet_price: i64,
    cancel_condition: CancelCondition,
    variable_odds: Option<i64>,
) -> (r: Instruction)
    ensures
        r.program_id == env.program_id,
        r.accounts@ == seq![
            AccountMeta { id: creator_main_account, is_signer: true, is_writable: true },
            AccountMeta { id: creator_payment_account, is_signer: false, is_writable: true },
            AccountMeta { id: bet_state_account, is_signer: false, is_writable: true },
            AccountMeta { id: bet_escrow_account, is_signer: false, is_writable: true },
            AccountMeta { id: betting_market_account, is_signer: false, is_writable: false },
            AccountMeta { id: pyth_oracle_product_account, is_signer: false, is_writable: false },
            AccountMeta { id: pyth_oracle_price_account, is_signer: false, is_writable: false },
            AccountMeta { id: env.rent_sysvar_id, is_signer: false, is_writable: false },
            AccountMeta { id: env.token_program_id, is_signer: false, is_writable: false },
            AccountMeta { id: env.system_program_id, is_signer: false, is_writable: false },
        ],
        r.data@ == enc_instruction(
            BetInstruction::CreateBet(
                CreateBetArgs {
                    bet_size,
                    odds,
                    expiration_time,
                    bet_direction,
                    bet_price,
                    cancel_condition,
                    variable_odds,
                },
            ),
        ),
{
    let mut accounts: Vec<AccountMeta> = Vec::new();
    accounts.push(AccountMeta { id: creator_main_account, is_signer: true, is_writable: true });
    accounts.push(
        AccountMeta { id: creator_payment_account, is_signer: false, is_writable: true },
    );
    accounts.push(AccountMeta { id: bet_state_account, is_signer: false, is_writable: true });
    accounts.push(AccountMeta { id: bet_escrow_account, is_signer: false, is_writable: true });
    accounts.push(
        AccountMeta { id: betting_market_account, is_signer: false, is_writable: false },
    );
    accounts.push(
        AccountMeta { id: pyth_oracle_product_account, is_signer: false, is_writable: false },
    );
    accounts.push(
        AccountMeta { id: pyth_oracle_price_account, is_signer: false, is_writable: false },
    );
    accounts.push(AccountMeta { id: env.rent_sysvar_id, is_signer: false, is_writable: false });
    accounts.push(AccountMeta { id: env.token_program_id, is_signer: false, is_writable: false });
    accounts.push(AccountMeta { id: env.system_program_id, is_signer: false, is_writable: false });
    let data = BetInstruction::CreateBet(
        CreateBetArgs {
            bet_size,
            odds,
            expiration_time,
            bet_direction,
            bet_price,
            cancel_condition,
            variable_odds,
        },
    ).to_bytes();
    proof {
        assert(accounts@ =~= seq![
            AccountMeta { id: creator_main_account, is_signer: true, is_writable: true },
            AccountMeta { id: creator_payment_account, is_signer: false, is_writable: true },
            AccountMeta { id: bet_state_account, is_signer: false, is_writable: true },
            AccountMeta { id: bet_escrow_account, is_signer: false, is_writable: true },
            AccountMeta { id: betting_market_account, is_signer: false, is_writable: false },
            AccountMeta { id: pyth_oracle_product_account, is_signer: false, is_writable: false },
            AccountMeta { id: pyth_oracle_price_account, is_signer: false, is_writable: false },
            AccountMeta { id: env.rent_sysvar_id, is_signer: false, is_writable: false },
            AccountMeta { id: env.token_program_id, is_signer: false, is_writable: false },
            AccountMeta { id: env.system_program_id, is_signer: false, is_writable: false },
        ]);
    }
    Instruction { program_id: env.program_id, accounts, data }
}

/// Builds an acceptance submission: the acceptor pair, the bet's record
/// and escrow, the fill's record and escrow, the market, the oracle
/// price account, then the rent schedule, the token and system programs
/// and the clock, with the encoded stake portion.
pub fn accept_bet(
    env: &Env,
    acceptor_main_account: AccountId,
    acceptor_payment_account: AccountId,
    bet_state_account: AccountId,
    bet_escrow_account: AccountId,
    accepted_bet_state_account: AccountId,
    accepted_bet_escrow_account: AccountId,
    betting_market_account: AccountId,
    pyth_oracle_price_account: AccountId,
    bet_size: u64,
) -> (r: Instruction)
    ensures
        r.program_id == env.program_id,
        r.accounts@ == seq![
            AccountMeta { id: acceptor_main_account, is_signer: true, is_writable: true },
            AccountMeta { id: acceptor_payment_account, is_signer: false, is_writable: true },
            AccountMeta { id: bet_state_account, is_signer: false, is_writable: true },
            AccountMeta { id: bet_escrow_account, is_signer: false, is_writable: true },
            AccountMeta { id: accepted_bet_state_account, is_signer: false, is_writable: true },
            AccountMeta { id: accepted_bet_escrow_account, is_signer: false, is_writable: true },
            AccountMeta { id: betting_market_account, is_signer: false, is_writable: false },
            AccountMeta { id: pyth_oracle_price_account, is_signer: false, is_writable: false },
            AccountMeta { id: env.rent_sysvar_id, is_signer: false, is_writable: false },
            AccountMeta { id: env.token_program_id, is_signer: false, is_writable: false },
            AccountMeta { id: env.system_program_id, is_signer: false, is_writable: false },
            AccountMeta { id: env.clock_sysvar_id, is_signer: false, is_writable: false },
        ],
        r.data@ == enc_instruction(BetInstruction::AcceptBet(AcceptBetArgs { bet_size })),
{
    let mut accounts: Vec<AccountMeta> = Vec::new();
    accounts.push(AccountMeta { id: acceptor_main_account, is_signer: true, is_writable: true });
    accounts.push(
        AccountMeta { id: acceptor_payment_account, is_signer: false, is_writable: true },
    );
    accounts.push(AccountMeta { id: bet_state_account, is_signer: false, is_writable: true });
    accounts.push(AccountMeta { id: bet_escrow_account, is_signer: false, is_writable: true });
    accounts.push(
        AccountMeta { id: accepted_bet_state_account, is_signer: false, is_writable: true },
    );
    accounts.push(
        AccountMeta { id: accepted_bet_escrow_account, is_signer: false, is_writable: true },
    );
    accounts.push(
        AccountMeta { id: betting_market_account, is_signer: false, is_writable: false },
    );
    accounts.push(
        AccountMeta { id: pyth_oracle_price_account, is_signer: false, is_writable: false },
    );
    accounts.push(AccountMeta { id: env.rent_sysvar_id, is_signer: false, is_writable: false });
    accounts.push(AccountMeta { id: env.token_program_id, is_signer: false, is_writable: false });
    accounts.push(AccountMeta { id: env.system_program_id, is_signer: false, is_writable: false });
    accounts.push(AccountMeta { id: env.clock_sysvar_id, is_signer: false, is_writable: false });
    let data = BetInstruction::AcceptBet(AcceptBetArgs { bet_size }).to_bytes();
    proof {
        assert(accounts@ =~= seq![
            AccountMeta { id: acceptor_main_account, is_signer: true, is_writable: true },
            AccountMeta { id: acceptor_payment_account, is_signer: false, is_writable: true },
            AccountMeta { id: bet_state_account, is_signer: false, is_writable: true },
            AccountMeta { id: bet_escrow_account, is_signer: false, is_writable: true },
            AccountMeta { id: accepted_bet_state_account, is_signer: false, is_writable: true },
            AccountMeta { id: accepted_bet_escrow_account, is_signer: false, is_writable: true },
            AccountMeta { id: betting_market_account, is_signer: false, is_writable: false },
            AccountMeta { id: pyth_oracle_price_account, is_signer: false, is_writable: false },
            AccountMeta { id: env.rent_sysvar_id, is_signer: false, is_writable: false },
            AccountMeta { id: env.token_program_id, is_signer: false, is_writable: false },
            AccountMeta { id: env.system_program_id, is_signer: false, is_writable: false },
            AccountMeta { id: env.clock_sysvar_id, is_signer: false, is_writable: false },
        ]);
    }
    Instruction { program_id: env.program_id, accounts, data }
}

} // verus!
