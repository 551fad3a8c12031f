//! The bet life-cycle state machine: the four transitions (create, accept,
//! cancel, finalize) plus the one-time market initialization, each an
//! atomic operation on the account store.
//!
//! Every transition validates an exact precondition checklist before any
//! fund movement is authorized; any failure aborts the whole operation
//! with no state change and exactly one error.  The meaning of each
//! transition is a specification function from the store's map view to
//! either the updated map or the error; the executable function is proved
//! to agree with it and to leave the store untouched on failure.

use vstd::prelude::*;
use crate::custody::{native_move, native_move_spec, token_move, token_move_spec};
use crate::error::BetError;
use crate::ids::{derive_authority, derive_authority_spec, AccountId};
use crate::instruction::{dec_instruction, AccountMeta, BetInstruction};
use crate::ledger::{Account, AccountData, Env, Ledger, Rent, rent_exempt_spec};
use crate::odds::{
    creator_wins_spec, settle,
    acceptance_odds, acceptance_odds_math, required_payment, required_payment_math,
};
use crate::oracle::{current_price, current_price_spec, validate_pyth_keys, validate_pyth_keys_spec};
use crate::state::{
    AcceptedBet, Bet, BettingMarket, TokenAccount, ACCEPTED_RECORD_LEN, BET_RECORD_LEN,
    MARKET_RECORD_LEN,
};

verus! {

/// The accounts referenced by a market initialization, in submission
/// order: the signing owner, the market record to provision, the
/// commission destination, and the trusted oracle program.
#[derive(Clone, Copy, Debug, PartialEq, Eq, Structural)]
pub struct InitMarketKeys {
    /// The market owner.
    pub owner: AccountId,
    /// Whether the owner signed the submission.
    pub owner_is_signer: bool,
    /// The market record account to provision.
    pub betting_market: AccountId,
    /// Where commissions of this market are paid.
    pub commission_fee: AccountId,
    /// The oracle program trusted for this market.
    pub pyth_program: AccountId,
}

/// The outcome of provisioning a market configuration: the owner must
/// sign, the record account must be program-owned and shaped like market
/// record storage, and selecting non-native payment without an asset
/// identity fails with `NoPaymentMintGiven`.  On success all fields are
/// written; under native payment a previously stored asset identity is
/// carried over unchanged, as only non-native mode assigns it.
pub open spec fn init_betting_market_spec(
    m: Map<AccountId, Account>,
    env: Env,
    k: InitMarketKeys,
    sol_payment: bool,
    payment_mint: Option<AccountId>,
) -> Result<Map<AccountId, Account>, BetError> {
    if !k.owner_is_signer {
        Err(BetError::IncorrectOwner)
    } else if !m.contains_key(k.betting_market) {
        Err(BetError::InvalidAccountInput)
    } else if m[k.betting_market].owner != env.program_id {
        Err(BetError::IncorrectOwner)
    } else {
        let acct = m[k.betting_market];
        let prior = match acct.data {
            AccountData::Empty { size } => if size >= MARKET_RECORD_LEN {
                Ok(None)
            } else {
                Err(BetError::DataTypeMismatch)
            },
            AccountData::Market(prev) => Ok(prev.payment_mint),
            _ => Err(BetError::DataTypeMismatch),
        };
        match prior {
            Err(e) => Err(e),
            Ok(prev_mint) => {
                if !sol_payment && payment_mint is None {
                    Err(BetError::NoPaymentMintGiven)
                } else {
                    let rec = BettingMarket {
                        owner: k.owner,
                        fee_commission_account: k.commission_fee,
                        sol_payment,
                        payment_mint: if !sol_payment {
                            payment_mint
                        } else {
                            prev_mint
                        },
                        pyth_program_id: k.pyth_program,
                    };
                    Ok(
                        m.insert(
                            k.betting_market,
                            Account {
                                owner: acct.owner,
                                lamports: acct.lamports,
                                data: AccountData::Market(rec),
                            },
                        ),
                    )
                }
            },
        }
    }
}

/// Provisions a per-asset-class market configuration, atomically.
pub fn process_init_betting_market(
    l: &mut Ledger,
    env: &Env,
    k: &InitMarketKeys,
    sol_payment: bool,
    payment_mint: &Option<AccountId>,
) -> (r: Result<(), BetError>)
    requires
        old(l).wf(),
    ensures
        final(l).wf(),
        match init_betting_market_spec(old(l)@, *env, *k, sol_payment, *payment_mint) {
            Ok(m2) => r == Ok::<(), BetError>(()) && final(l)@ == m2,
            Err(e) => r == Err::<(), BetError>(e) && final(l)@ == old(l)@,
        },
{
    if !k.owner_is_signer {
        return Err(BetError::IncorrectOwner);
    }
    let acct = match l.get(&k.betting_market) {
        Some(a) => a,
        None => {
            return Err(BetError::InvalidAccountInput);
        },
    };
    if !(acct.owner == env.program_id) {
        return Err(BetError::IncorrectOwner);
    }
    let prev_mint: Option<AccountId> = match &acct.data {
        AccountData::Empty { size } => {
            if *size >= MARKET_RECORD_LEN {
                None
            } else {
                return Err(BetError::DataTypeMismatch);
            }
        },
        AccountData::Market(prev) => prev.payment_mint,
        _ => {
            return Err(BetError::DataTypeMismatch);
        },
    };
    let mint: Option<AccountId> = if !sol_payment {
        match payment_mint {
            Some(pm) => Some(*pm),
            None => {
                return Err(BetError::NoPaymentMintGiven);
            },
        }
    } else {
        prev_mint
    };
    let rec = BettingMarket {
        owner: k.owner,
        fee_commission_account: k.commission_fee,
        sol_payment,
        payment_mint: mint,
        pyth_program_id: k.pyth_program,
    };
    l.put(
        k.betting_market,
        Account { owner: acct.owner, lamports: acct.lamports, data: AccountData::Market(rec) },
    );
    Ok(())
}

/// The accounts referenced by a bet creation, in submission order.
#[derive(Clone, Copy, Debug, PartialEq, Eq, Structural)]
pub struct CreateBetKeys {
    /// The bet's creator.
    pub creator_main: AccountId,
    /// Whether the creator signed the submission.
    pub creator_main_is_signer: bool,
    /// The creator's payment account (must hold the asset in token mode).
    pub creator_payment: AccountId,
    /// The bet record account to write.
    pub bet_state: AccountId,
    /// The escrow custody account already funded with the stake.
    pub bet_escrow: AccountId,
    /// The market the bet is opened under.
    pub betting_market: AccountId,
    /// The oracle product account.
    pub oracle_product: AccountId,
    /// The oracle price account.
    pub oracle_price: AccountId,
    /// The supplied fungible-asset program identity.
    pub token_program: AccountId,
    /// The supplied native-transfer program identity.
    pub system_program: AccountId,
}

/// The terms a creator submits with a new bet.
#[derive(Clone, Copy, Debug, PartialEq, Eq, Structural)]
pub struct BetTerms {
    /// The stake the escrow must already hold.
    pub bet_size: u64,
    /// Base odds, scaled by 100; at least 100.
    pub odds: i64,
    /// When the bet expires.
    pub expiration_time: i64,
    /// The side of the target price the creator bets on.
    pub bet_direction: crate::state::Direction,
    /// The target price at expiration.
    pub bet_price: i64,
    /// Price band and deadline for acceptance.
    pub cancel_condition: crate::state::CancelCondition,
    /// Optional variable-odds sensitivity divisor.
    pub variable_odds: Option<i64>,
}

/// The outcome of creating a bet.  The creator must sign; the record
/// account must be program-owned, rent exempt and not yet initialized;
/// the escrow must already satisfy the stake (native balance, or token
/// balance under the market's asset); the oracle pair must be authentic;
/// and the base odds must be at least 100.  On success the escrow is
/// locked under the derived authority (token mode), the starting price is
/// sampled from the oracle, and the full record is written with no stake
/// yet accepted and the cancelled flag clear.
pub open spec fn create_bet_spec(
    m: Map<AccountId, Account>,
    env: Env,
    rent: Rent,
    k: CreateBetKeys,
    a: BetTerms,
) -> Result<Map<AccountId, Account>, BetError> {
    if k.token_program != env.token_program_id {
        Err(BetError::InvalidSystemProgram)
    } else if k.system_program != env.system_program_id {
        Err(BetError::InvalidSystemProgram)
    } else if !k.creator_main_is_signer {
        Err(BetError::IncorrectSigner)
    } else if !m.contains_key(k.bet_state) {
        Err(BetError::InvalidAccountInput)
    } else if m[k.bet_state].owner != env.program_id {
        Err(BetError::IncorrectOwner)
    } else if !rent_exempt_spec(rent, m[k.bet_state]) {
        Err(BetError::NotRentExempt)
    } else {
        let prior = match m[k.bet_state].data {
            AccountData::Empty { size } => if size >= BET_RECORD_LEN {
                Ok(false)
            } else {
                Err(BetError::DataTypeMismatch)
            },
            AccountData::BetState(old_bet) => Ok(old_bet.is_initialized),
            _ => Err(BetError::DataTypeMismatch),
        };
        match prior {
            Err(e) => Err(e),
            Ok(prior_initialized) => {
                if !m.contains_key(k.betting_market) {
                    Err(BetError::InvalidAccountInput)
                } else {
                    match m[k.betting_market].data {
                        AccountData::Market(mk) => create_bet_funding_spec(
                            m,
                            env,
                            k,
                            a,
                            mk,
                            prior_initialized,
                        ),
                        _ => Err(BetError::DataTypeMismatch),
                    }
                }
            },
        }
    }
}

/// The escrow-funding and oracle half of [`create_bet_spec`], after the
/// record-account checks have passed.
pub open spec fn create_bet_funding_spec(
    m: Map<AccountId, Account>,
    env: Env,
    k: CreateBetKeys,
    a: BetTerms,
    mk: BettingMarket,
    prior_initialized: bool,
) -> Result<Map<AccountId, Account>, BetError> {
    if !m.contains_key(k.bet_escrow) {
        Err(BetError::InvalidAccountInput)
    } else {
        let lock = if mk.sol_payment {
            if m[k.bet_escrow].owner != env.program_id {
                Err(BetError::IncorrectOwner)
            } else if m[k.bet_escrow].lamports < a.bet_size {
                Err(BetError::AmountUnderflow)
            } else {
                Ok(m)
            }
        } else {
            if m[k.bet_escrow].owner != env.token_program_id {
                Err(BetError::IsNotTokenAccount)
            } else if !m.contains_key(k.creator_payment) {
                Err(BetError::InvalidAccountInput)
            } else if m[k.creator_payment].owner != env.token_program_id {
                Err(BetError::IsNotTokenAccount)
            } else {
                match (m[k.bet_escrow].data, m[k.creator_payment].data) {
                    (AccountData::Token(te), AccountData::Token(tp)) => {
                        let mint_ok = match mk.payment_mint {
                            Some(pm) => te.mint == tp.mint && te.mint == pm,
                            None => true,
                        };
                        if !mint_ok {
                            Err(BetError::InvalidMint)
                        } else if te.amount < a.bet_size {
                            Err(BetError::AmountUnderflow)
                        } else if te.authority != k.creator_main {
                            Err(BetError::IncorrectOwner)
                        } else {
                            let esc = m[k.bet_escrow];
                            Ok(
                                m.insert(
                                    k.bet_escrow,
                                    Account {
                                        owner: esc.owner,
                                        lamports: esc.lamports,
                                        data: AccountData::Token(
                                            TokenAccount {
                                                mint: te.mint,
                                                authority: derive_authority_spec(k.bet_escrow),
                                                amount: te.amount,
                                            },
                                        ),
                                    },
                                ),
                            )
                        }
                    },
                    _ => Err(BetError::IsNotTokenAccount),
                }
            }
        };
        match lock {
            Err(e) => Err(e),
            Ok(m2) => {
                match validate_pyth_keys_spec(m, mk.pyth_program_id, k.oracle_product, k.oracle_price) {
                    Err(e) => Err(e),
                    Ok(()) => {
                        if prior_initialized {
                            Err(BetError::AccountAlreadyInitialized)
                        } else {
                            match current_price_spec(m, k.oracle_price) {
                                Err(e) => Err(e),
                                Ok(p) => {
                                    if a.odds < 100 {
                                        Err(BetError::InvalidOdds)
                                    } else {
                                        let st = m2[k.bet_state];
                                        let rec = Bet {
                                            is_initialized: true,
                                            betting_market: k.betting_market,
                                            creator_main_account: k.creator_main,
                                            creator_payment_account: k.creator_payment,
                                            bet_escrow_account: k.bet_escrow,
                                            odds: a.odds,
                                            bet_size: a.bet_size,
                                            pyth_oracle_product_account: k.oracle_product,
                                            pyth_oracle_price_account: k.oracle_price,
                                            expiration_time: a.expiration_time,
                                            bet_direction: a.bet_direction,
                                            bet_price: a.bet_price,
                                            start_price: p.price,
                                            cancel_condition: a.cancel_condition,
                                            variable_odds: a.variable_odds,
                                            total_amount_accepted: 0,
                                            cancelled: false,
                                        };
                                        Ok(
                                            m2.insert(
                                                k.bet_state,
                                                Account {
                                                    owner: st.owner,
                                                    lamports: st.lamports,
                                                    data: AccountData::BetState(rec),
                                                },
                                            ),
                                        )
                                    }
                                },
                            }
                        }
                    },
                }
            },
        }
    }
}

/// Opens a bet: locks the already-funded escrow under the derived
/// authority (token mode), samples the starting price from the oracle,
/// and writes the bet record, atomically.
pub fn process_create_bet(l: &mut Ledger, env: &Env, rent: &Rent, k: &CreateBetKeys, a: &BetTerms)
    -> (r: Result<(), BetError>)
    requires
        old(l).wf(),
    ensures
        final(l).wf(),
        match create_bet_spec(old(l)@, *env, *rent, *k, *a) {
            Ok(m2) => r == Ok::<(), BetError>(()) && final(l)@ == m2,
            Err(e) => r == Err::<(), BetError>(e) && final(l)@ == old(l)@,
        },
{
    if !(k.token_program == env.token_program_id) {
        return Err(BetError::InvalidSystemProgram);
    }
    if !(k.system_program == env.system_program_id) {
        return Err(BetError::InvalidSystemProgram);
    }
    if !k.creator_main_is_signer {
        return Err(BetError::IncorrectSigner);
    }
    let bet_acct = match l.get(&k.bet_state) {
        Some(acct) => acct,
        None => {
            return Err(BetError::InvalidAccountInput);
        },
    };
    if !(bet_acct.owner == env.program_id) {
        return Err(BetError::IncorrectOwner);
    }
    if !rent.is_exempt(&bet_acct) {
        return Err(BetError::NotRentExempt);
    }
    let prior_initialized: bool = match &bet_acct.data {
        AccountData::Empty { size } => {
            if *size >= BET_RECORD_LEN {
                false
            } else {
                return Err(BetError::DataTypeMismatch);
            }
        },
        AccountData::BetState(old_bet) => old_bet.is_initialized,
        _ => {
            return Err(BetError::DataTypeMismatch);
        },
    };
    let market_acct = match l.get(&k.betting_market) {
        Some(acct) => acct,
        None => {
            return Err(BetError::InvalidAccountInput);
        },
    };
    let mk = match market_acct.data {
        AccountData::Market(mk) => mk,
        _ => {
            return Err(BetError::DataTypeMismatch);
        },
    };
    let escrow_acct = match l.get(&k.bet_escrow) {
        Some(acct) => acct,
        None => {
            return Err(BetError::InvalidAccountInput);
        },
    };
    let locked_escrow: Option<Account> = if mk.sol_payment {
        if !(escrow_acct.owner == env.program_id) {
            return Err(BetError::IncorrectOwner);
        }
        if escrow_acct.lamports < a.bet_size {
            return Err(BetError::AmountUnderflow);
        }
        None
    } else {
        if !(escrow_acct.owner == env.token_program_id) {
            return Err(BetError::IsNotTokenAccount);
        }
        let payment_acct = match l.get(&k.creator_payment) {
            Some(acct) => acct,
            None => {
                return Err(BetError::InvalidAccountInput);
            },
        };
        if !(payment_acct.owner == env.token_program_id) {
            return Err(BetError::IsNotTokenAccount);
        }
        let te = match escrow_acct.data {
            AccountData::Token(te) => te,
            _ => {
                return Err(BetError::IsNotTokenAccount);
            },
        };
        let tp = match payment_acct.data {
            AccountData::Token(tp) => tp,
            _ => {
                return Err(BetError::IsNotTokenAccount);
            },
        };
        let mint_ok = match mk.payment_mint {
            Some(pm) => te.mint == tp.mint && te.mint == pm,
            None => true,
        };
        if !mint_ok {
            return Err(BetError::InvalidMint);
        }
        if te.amount < a.bet_size {
            return Err(BetError::AmountUnderflow);
        }
        if !(te.authority == k.creator_main) {
            return Err(BetError::IncorrectOwner);
        }
        let authority = derive_authority(&k.bet_escrow);
        Some(
            Account {
                owner: escrow_acct.owner,
                lamports: escrow_acct.lamports,
                data: AccountData::Token(
                    TokenAccount { mint: te.mint, authority, amount: te.amount },
                ),
            },
        )
    };
    match validate_pyth_keys(l, &mk.pyth_program_id, &k.oracle_product, &k.oracle_price) {
        Ok(()) => {},
        Err(e) => {
            return Err(e);
        },
    }
    if prior_initialized {
        return Err(BetError::AccountAlreadyInitialized);
    }
    let p = match current_price(l, &k.oracle_price) {
        Ok(p) => p,
        Err(e) => {
            return Err(e);
        },
    };
    if a.odds < 100 {
        return Err(BetError::InvalidOdds);
    }
    if let Some(esc) = locked_escrow {
        l.put(k.bet_escrow, esc);
    }
    let st = match l.get(&k.bet_state) {
        Some(acct) => acct,
        None => {
            return Err(BetError::InvalidAccountInput);
        },
    };
    let rec = Bet {
        is_initialized: true,
        betting_market: k.betting_market,
        creator_main_account: k.creator_main,
        creator_payment_account: k.creator_payment,
        bet_escrow_account: k.bet_escrow,
        odds: a.odds,
        bet_size: a.bet_size,
        pyth_oracle_product_account: k.oracle_product,
        pyth_oracle_price_account: k.oracle_price,
        expiration_time: a.expiration_time,
        bet_direction: a.bet_direction,
        bet_price: a.bet_price,
        start_price: p.price,
        cancel_condition: a.cancel_condition,
        variable_odds: a.variable_odds,
        total_amount_accepted: 0,
        cancelled: false,
    };
    l.put(
        k.bet_state,
        Account { owner: st.owner, lamports: st.lamports, data: AccountData::BetState(rec) },
    );
    Ok(())
}

/// The accounts referenced by an acceptance, in submission order.
#[derive(Clone, Copy, Debug, PartialEq, Eq, Structural)]
pub struct AcceptBetKeys {
    /// The acceptor taking part of the creator's stake.
    pub acceptor_main: AccountId,
    /// Whether the acceptor signed the submission.
    pub acceptor_main_is_signer: bool,
    /// The acceptor's payment account the required payment is pulled from.
    pub acceptor_payment: AccountId,
    /// The bet record being accepted.
    pub bet_state: AccountId,
    /// The bet's escrow custody account.
    pub bet_escrow: AccountId,
    /// The accepted-fill record account to write.
    pub accepted_bet_state: AccountId,
    /// The escrow custody account of this fill.
    pub accepted_bet_escrow: AccountId,
    /// The market the bet was opened under.
    pub betting_market: AccountId,
    /// The oracle price account of the bet.
    pub oracle_price: AccountId,
    /// The supplied fungible-asset program identity.
    pub token_program: AccountId,
    /// The supplied native-transfer program identity.
    pub system_program: AccountId,
}

/// The stored bet at `id`, if any, has a usable variable-odds divisor.
/// Acceptance divides the observed price change by the divisor, so a bet
/// record holding a zero divisor cannot be priced.
pub open spec fn stored_bet_divisor_ok(m: Map<AccountId, Account>, id: AccountId) -> bool {
    m.contains_key(id) ==> match m[id].data {
        AccountData::BetState(b) => b.divisor_ok(),
        _ => true,
    }
}

/// The outcome of accepting `size` of a bet's stake at time `now`.  The
/// acceptor must sign; the fill record account must be program-owned,
/// rent exempt and not yet written; the supplied market, escrow and
/// oracle accounts must match the bet's references exactly; the bet must
/// not be cancelled, the current price must lie inside the cancel
/// condition's band, and `now` must not be past its deadline nor the
/// bet's expiration.  The effective odds must stay at or above 100.  On
/// success `size` moves from the bet's escrow into the fill's escrow, the
/// acceptor's required payment is pulled in on top, and the fill record
/// is written with the locked-in odds.  The parent bet record itself is
/// left untouched: in particular its running total of accepted stake is
/// not reconciled here, a known gap in the rules left as they stand
/// rather than silently repaired.
pub open spec fn accept_bet_spec(
    m: Map<AccountId, Account>,
    env: Env,
    rent: Rent,
    k: AcceptBetKeys,
    now: i64,
    size: u64,
) -> Result<Map<AccountId, Account>, BetError> {
    if k.token_program != env.token_program_id {
        Err(BetError::InvalidSystemProgram)
    } else if k.system_program != env.system_program_id {
        Err(BetError::InvalidSystemProgram)
    } else if !k.acceptor_main_is_signer {
        Err(BetError::IncorrectSigner)
    } else if !m.contains_key(k.accepted_bet_state) {
        Err(BetError::InvalidAccountInput)
    } else if m[k.accepted_bet_state].owner != env.program_id {
        Err(BetError::IncorrectOwner)
    } else if !rent_exempt_spec(rent, m[k.accepted_bet_state]) {
        Err(BetError::NotRentExempt)
    } else {
        let fresh = match m[k.accepted_bet_state].data {
            AccountData::Empty { size: sz } => if sz >= ACCEPTED_RECORD_LEN {
                Ok(())
            } else {
                Err(BetError::DataTypeMismatch)
            },
            AccountData::AcceptedState(_) => Err(BetError::AccountAlreadyInitialized),
            _ => Err(BetError::DataTypeMismatch),
        };
        match fresh {
            Err(e) => Err(e),
            Ok(()) => {
                if !m.contains_key(k.bet_state) {
                    Err(BetError::InvalidAccountInput)
                } else {
                    match m[k.bet_state].data {
                        AccountData::BetState(b) => {
                            if !m.contains_key(k.betting_market) {
                                Err(BetError::InvalidAccountInput)
                            } else {
                                match m[k.betting_market].data {
                                    AccountData::Market(mk) => accept_bet_terms_spec(
                                        m,
                                        env,
                                        k,
                                        now,
                                        size,
                                        b,
                                        mk,
                                    ),
                                    _ => Err(BetError::DataTypeMismatch),
                                }
                            }
                        },
                        _ => Err(BetError::DataTypeMismatch),
                    }
                }
            },
        }
    }
}

/// The validity, odds and funding half of [`accept_bet_spec`], after the
/// fill-record checks have passed.
pub open spec fn accept_bet_terms_spec(
    m: Map<AccountId, Account>,
    env: Env,
    k: AcceptBetKeys,
    now: i64,
    size: u64,
    b: Bet,
    mk: BettingMarket,
) -> Result<Map<AccountId, Account>, BetError> {
    if b.betting_market != k.betting_market {
        Err(BetError::InvalidAccounts)
    } else if b.bet_escrow_account != k.bet_escrow {
        Err(BetError::InvalidAccounts)
    } else if b.cancelled {
        Err(BetError::BetCancelled)
    } else if k.oracle_price != b.pyth_oracle_price_account {
        Err(BetError::InvalidAccounts)
    } else {
        match current_price_spec(m, k.oracle_price) {
            Err(e) => Err(e),
            Ok(p) => {
                if p.price > b.cancel_condition.above_price || p.price
                    < b.cancel_condition.below_price {
                    Err(BetError::BetNoLongerValid)
                } else if now > b.cancel_condition.time || now > b.expiration_time {
                    Err(BetError::BetNoLongerValid)
                } else {
                    let odds_math = acceptance_odds_math(b, p.price as int);
                    if odds_math < 100 {
                        Err(BetError::InvalidOdds)
                    } else if odds_math > i64::MAX {
                        Err(BetError::AmountOverflow)
                    } else {
                        let pay_math = required_payment_math(size as int, odds_math);
                        if pay_math > u64::MAX {
                            Err(BetError::AmountOverflow)
                        } else {
                            accept_bet_funding_spec(
                                m,
                                env,
                                k,
                                size,
                                mk,
                                odds_math as i64,
                                pay_math as u64,
                            )
                        }
                    }
                }
            },
        }
    }
}

/// The fund movements and record write of [`accept_bet_spec`]: `size`
/// out of the bet's escrow and the required payment out of the
/// acceptor's payment account, both into the fill's escrow, then the
/// fill record itself.
pub open spec fn accept_bet_funding_spec(
    m: Map<AccountId, Account>,
    env: Env,
    k: AcceptBetKeys,
    size: u64,
    mk: BettingMarket,
    locked_odds: i64,
    pay: u64,
) -> Result<Map<AccountId, Account>, BetError> {
    let moved = if mk.sol_payment {
        if !m.contains_key(k.accepted_bet_escrow) {
            Err(BetError::InvalidAccountInput)
        } else if m[k.accepted_bet_escrow].owner != env.program_id {
            Err(BetError::IncorrectOwner)
        } else {
            match native_move_spec(m, k.bet_escrow, k.accepted_bet_escrow, size) {
                Err(e) => Err(e),
                Ok(m2) => native_move_spec(m2, k.acceptor_payment, k.accepted_bet_escrow, pay),
            }
        }
    } else {
        if !m.contains_key(k.accepted_bet_escrow) {
            Err(BetError::InvalidAccountInput)
        } else {
            match m[k.accepted_bet_escrow].data {
                AccountData::Token(tae) => {
                    if tae.authority != k.acceptor_main {
                        Err(BetError::IncorrectOwner)
                    } else {
                        let esc = m[k.accepted_bet_escrow];
                        let m2 = m.insert(
                            k.accepted_bet_escrow,
                            Account {
                                owner: esc.owner,
                                lamports: esc.lamports,
                                data: AccountData::Token(
                                    TokenAccount {
                                        mint: tae.mint,
                                        authority: derive_authority_spec(k.bet_escrow),
                                        amount: tae.amount,
                                    },
                                ),
                            },
                        );
                        match token_move_spec(
                            m2,
                            k.bet_escrow,
                            k.accepted_bet_escrow,
                            derive_authority_spec(k.bet_escrow),
                            size,
                        ) {
                            Err(e) => Err(e),
                            Ok(m3) => token_move_spec(
                                m3,
                                k.acceptor_payment,
                                k.accepted_bet_escrow,
                                k.acceptor_main,
                                pay,
                            ),
                        }
                    }
                },
                _ => Err(BetError::IsNotTokenAccount),
            }
        }
    };
    match moved {
        Err(e) => Err(e),
        Ok(mn) => {
            let st = mn[k.accepted_bet_state];
            let rec = AcceptedBet {
                bet: k.bet_state,
                accepted_bet_escrow_account: k.accepted_bet_escrow,
                acceptor_main_account: k.acceptor_main,
                acceptor_payment_account: k.acceptor_payment,
                odds: locked_odds,
                bet_size: size,
                finalized: false,
            };
            Ok(
                mn.insert(
                    k.accepted_bet_state,
                    Account {
                        owner: st.owner,
                        lamports: st.lamports,
                        data: AccountData::AcceptedState(rec),
                    },
                ),
            )
        },
    }
}

/// Accepts `size` of a bet's stake: moves that stake plus the acceptor's
/// required payment into the fill's escrow and writes the fill record
/// with the locked-in odds, atomically.
pub fn process_accept_bet(
    l: &mut Ledger,
    env: &Env,
    rent: &Rent,
    k: &AcceptBetKeys,
    now: i64,
    size: u64,
) -> (r: Result<(), BetError>)
    requires
        old(l).wf(),
        stored_bet_divisor_ok(old(l)@, k.bet_state),
    ensures
        final(l).wf(),
        match accept_bet_spec(old(l)@, *env, *rent, *k, now, size) {
            Ok(m2) => r == Ok::<(), BetError>(()) && final(l)@ == m2,
            Err(e) => r == Err::<(), BetError>(e) && final(l)@ == old(l)@,
        },
{
    if !(k.token_program == env.token_program_id) {
        return Err(BetError::InvalidSystemProgram);
    }
    if !(k.system_program == env.system_program_id) {
        return Err(BetError::InvalidSystemProgram);
    }
    if !k.acceptor_main_is_signer {
        return Err(BetError::IncorrectSigner);
    }
    let fill_acct = match l.get(&k.accepted_bet_state) {
        Some(acct) => acct,
        None => {
            return Err(BetError::InvalidAccountInput);
        },
    };
    if !(fill_acct.owner == env.program_id) {
        return Err(BetError::IncorrectOwner);
    }
    if !rent.is_exempt(&fill_acct) {
        return Err(BetError::NotRentExempt);
    }
    match &fill_acct.data {
        AccountData::Empty { size: sz } => {
            if *sz < ACCEPTED_RECORD_LEN {
                return Err(BetError::DataTypeMismatch);
            }
        },
        AccountData::AcceptedState(_) => {
            return Err(BetError::AccountAlreadyInitialized);
        },
        _ => {
            return Err(BetError::DataTypeMismatch);
        },
    }
    let bet_acct = match l.get(&k.bet_state) {
        Some(acct) => acct,
        None => {
            return Err(BetError::InvalidAccountInput);
        },
    };
    let b = match bet_acct.data {
        AccountData::BetState(b) => b,
        _ => {
            return Err(BetError::DataTypeMismatch);
        },
    };
    let market_acct = match l.get(&k.betting_market) {
        Some(acct) => acct,
        None => {
            return Err(BetError::InvalidAccountInput);
        },
    };
    let mk = match market_acct.data {
        AccountData::Market(mk) => mk,
        _ => {
            return Err(BetError::DataTypeMismatch);
        },
    };
    if !(b.betting_market == k.betting_market) {
        return Err(BetError::InvalidAccounts);
    }
    if !(b.bet_escrow_account == k.bet_escrow) {
        return Err(BetError::InvalidAccounts);
    }
    if b.cancelled {
        return Err(BetError::BetCancelled);
    }
    if !(k.oracle_price == b.pyth_oracle_price_account) {
        return Err(BetError::InvalidAccounts);
    }
    let p = match current_price(l, &k.oracle_price) {
        Ok(p) => p,
        Err(e) => {
            return Err(e);
        },
    };
    if p.price > b.cancel_condition.above_price || p.price < b.cancel_condition.below_price {
        return Err(BetError::BetNoLongerValid);
    }
    if now > b.cancel_condition.time || now > b.expiration_time {
        return Err(BetError::BetNoLongerValid);
    }
    let locked_odds: i64 = match acceptance_odds(&b, p.price) {
        Ok(o) => o,
        Err(e) => {
            return Err(e);
        },
    };
    let pay: u64 = match required_payment(size, locked_odds) {
        Ok(v) => v,
        Err(e) => {
            return Err(e);
        },
    };
    let mut work = l.duplicate();
    if mk.sol_payment {
        let esc = match work.get(&k.accepted_bet_escrow) {
            Some(acct) => acct,
            None => {
                return Err(BetError::InvalidAccountInput);
            },
        };
        if !(esc.owner == env.program_id) {
            return Err(BetError::IncorrectOwner);
        }
        match native_move(&mut work, &k.bet_escrow, &k.accepted_bet_escrow, size) {
            Ok(()) => {},
            Err(e) => {
                return Err(e);
            },
        }
        match native_move(&mut work, &k.acceptor_payment, &k.accepted_bet_escrow, pay) {
            Ok(()) => {},
            Err(e) => {
                return Err(e);
            },
        }
    } else {
        let esc = match work.get(&k.accepted_bet_escrow) {
            Some(acct) => acct,
            None => {
                return Err(BetError::InvalidAccountInput);
            },
        };
        let tae = match esc.data {
            AccountData::Token(tae) => tae,
            _ => {
                return Err(BetError::IsNotTokenAccount);
            },
        };
        if !(tae.authority == k.acceptor_main) {
            return Err(BetError::IncorrectOwner);
        }
        let authority = derive_authority(&k.bet_escrow);
        work.put(
            k.accepted_bet_escrow,
            Account {
                owner: esc.owner,
                lamports: esc.lamports,
                data: AccountData::Token(
                    TokenAccount { mint: tae.mint, authority, amount: tae.amount },
                ),
            },
        );
        match token_move(&mut work, &k.bet_escrow, &k.accepted_bet_escrow, &authority, size) {
            Ok(()) => {},
            Err(e) => {
                return Err(e);
            },
        }
        match token_move(&mut work, &k.acceptor_payment, &k.accepted_bet_escrow, &k.acceptor_main, pay) {
            Ok(()) => {},
            Err(e) => {
                return Err(e);
            },
        }
    }
    let st = match work.get(&k.accepted_bet_state) {
        Some(acct) => acct,
        None => {
            return Err(BetError::InvalidAccountInput);
        },
    };
    let rec = AcceptedBet {
        bet: k.bet_state,
        accepted_bet_escrow_account: k.accepted_bet_escrow,
        acceptor_main_account: k.acceptor_main,
        acceptor_payment_account: k.acceptor_payment,
        odds: locked_odds,
        bet_size: size,
        finalized: false,
    };
    work.put(
        k.accepted_bet_state,
        Account { owner: st.owner, lamports: st.lamports, data: AccountData::AcceptedState(rec) },
    );
    *l = work;
    Ok(())
}

/// The accounts referenced by a cancellation, in submission order.
#[derive(Clone, Copy, Debug, PartialEq, Eq, Structural)]
pub struct CancelBetKeys {
    /// The bet's creator, who alone may cancel.
    pub creator_main: AccountId,
    /// Whether the creator signed the submission.
    pub creator_main_is_signer: bool,
    /// Where the remaining escrow balance is refunded.
    pub creator_payment: AccountId,
    /// The bet record being cancelled.
    pub bet_state: AccountId,
    /// The bet's escrow custody account.
    pub bet_escrow: AccountId,
    /// The market the bet was opened under.
    pub betting_market: AccountId,
    /// The supplied fungible-asset program identity.
    pub token_program: AccountId,
    /// The supplied native-transfer program identity.
    pub system_program: AccountId,
}

/// The outcome of a cancellation: after the signature, program-identity
/// and cross-reference checks, the entire remaining escrow balance moves
/// back to the creator's payment account and the record's `cancelled`
/// flag is set; it is never cleared again.  No reconciliation against
/// already-accepted fills is attempted.
pub open spec fn cancel_bet_spec(
    m: Map<AccountId, Account>,
    env: Env,
    k: CancelBetKeys,
) -> Result<Map<AccountId, Account>, BetError> {
    if k.token_program != env.token_program_id {
        Err(BetError::InvalidSystemProgram)
    } else if k.system_program != env.system_program_id {
        Err(BetError::InvalidSystemProgram)
    } else if !k.creator_main_is_signer {
        Err(BetError::IncorrectSigner)
    } else if !m.contains_key(k.bet_state) {
        Err(BetError::InvalidAccountInput)
    } else {
        match m[k.bet_state].data {
            AccountData::BetState(b) => {
                if !m.contains_key(k.betting_market) {
                    Err(BetError::InvalidAccountInput)
                } else {
                    match m[k.betting_market].data {
                        AccountData::Market(mk) => {
                            if b.creator_main_account != k.creator_main {
                                Err(BetError::InvalidAccounts)
                            } else if b.betting_market != k.betting_market {
                                Err(BetError::InvalidAccounts)
                            } else if b.bet_escrow_account != k.bet_escrow {
                                Err(BetError::InvalidAccounts)
                            } else if !m.contains_key(k.bet_escrow) {
                                Err(BetError::InvalidAccountInput)
                            } else {
                                let moved = if mk.sol_payment {
                                    native_move_spec(
                                        m,
                                        k.bet_escrow,
                                        k.creator_payment,
                                        m[k.bet_escrow].lamports,
                                    )
                                } else {
                                    match m[k.bet_escrow].data {
                                        AccountData::Token(te) => token_move_spec(
                                            m,
                                            k.bet_escrow,
                                            k.creator_payment,
                                            derive_authority_spec(k.bet_escrow),
                                            te.amount,
                                        ),
                                        _ => Err(BetError::IsNotTokenAccount),
                                    }
                                };
                                match moved {
                                    Err(e) => Err(e),
                                    Ok(m2) => {
                                        let st = m2[k.bet_state];
                                        let cancelled = Bet { cancelled: true, ..b };
                                        Ok(
                                            m2.insert(
                                                k.bet_state,
                                                Account {
                                                    owner: st.owner,
                                                    lamports: st.lamports,
                                                    data: AccountData::BetState(cancelled),
                                                },
                                            ),
                                        )
                                    },
                                }
                            }
                        },
                        _ => Err(BetError::DataTypeMismatch),
                    }
                }
            },
            _ => Err(BetError::DataTypeMismatch),
        }
    }
}

/// Cancels a bet, refunding the remaining escrow balance to its creator,
/// atomically.
pub fn process_cancel_bet(l: &mut Ledger, env: &Env, k: &CancelBetKeys) -> (r: Result<
    (),
    BetError,
>)
    requires
        old(l).wf(),
    ensures
        final(l).wf(),
        match cancel_bet_spec(old(l)@, *env, *k) {
            Ok(m2) => r == Ok::<(), BetError>(()) && final(l)@ == m2,
            Err(e) => r == Err::<(), BetError>(e) && final(l)@ == old(l)@,
        },
{
    if !(k.token_program == env.token_program_id) {
        return Err(BetError::InvalidSystemProgram);
    }
    if !(k.system_program == env.system_program_id) {
        return Err(BetError::InvalidSystemProgram);
    }
    if !k.creator_main_is_signer {
        return Err(BetError::IncorrectSigner);
    }
    let bet_acct = match l.get(&k.bet_state) {
        Some(a) => a,
        None => {
            return Err(BetError::InvalidAccountInput);
        },
    };
    let b = match bet_acct.data {
        AccountData::BetState(b) => b,
        _ => {
            return Err(BetError::DataTypeMismatch);
        },
    };
    let market_acct = match l.get(&k.betting_market) {
        Some(a) => a,
        None => {
            return Err(BetError::InvalidAccountInput);
        },
    };
    let mk = match market_acct.data {
        AccountData::Market(mk) => mk,
        _ => {
            return Err(BetError::DataTypeMismatch);
        },
    };
    if !(b.creator_main_account == k.creator_main) {
        return Err(BetError::InvalidAccounts);
    }
    if !(b.betting_market == k.betting_market) {
        return Err(BetError::InvalidAccounts);
    }
    if !(b.bet_escrow_account == k.bet_escrow) {
        return Err(BetError::InvalidAccounts);
    }
    let escrow_acct = match l.get(&k.bet_escrow) {
        Some(a) => a,
        None => {
            return Err(BetError::InvalidAccountInput);
        },
    };
    let mut work = l.duplicate();
    if mk.sol_payment {
        match native_move(&mut work, &k.bet_escrow, &k.creator_payment, escrow_acct.lamports) {
            Ok(()) => {},
            Err(e) => {
                return Err(e);
            },
        }
    } else {
        let te = match escrow_acct.data {
            AccountData::Token(te) => te,
            _ => {
                return Err(BetError::IsNotTokenAccount);
            },
        };
        let authority = derive_authority(&k.bet_escrow);
        match token_move(&mut work, &k.bet_escrow, &k.creator_payment, &authority, te.amount) {
            Ok(()) => {},
            Err(e) => {
                return Err(e);
            },
        }
    }
    let st = match work.get(&k.bet_state) {
        Some(a) => a,
        None => {
            return Err(BetError::InvalidAccountInput);
        },
    };
    let cancelled = Bet { cancelled: true, ..b };
    work.put(
        k.bet_state,
        Account { owner: st.owner, lamports: st.lamports, data: AccountData::BetState(cancelled) },
    );
    *l = work;
    Ok(())
}

/// The accounts referenced by a settlement, in submission order.
#[derive(Clone, Copy, Debug, PartialEq, Eq, Structural)]
pub struct FinalizeBetKeys {
    /// Whoever triggers settlement; any party may.
    pub finalizer_main: AccountId,
    /// Whether the finalizer signed the submission.
    pub finalizer_main_is_signer: bool,
    /// Where the finalizer's fee is paid.
    pub finalizer_payment: AccountId,
    /// The market's commission destination.
    pub commission_fee: AccountId,
    /// The parent bet record.
    pub bet_state: AccountId,
    /// The accepted-fill record being settled.
    pub accepted_bet_state: AccountId,
    /// The fill's escrow custody account holding both sides' stake.
    pub accepted_bet_escrow: AccountId,
    /// The creator's payout destination.
    pub creator_payment: AccountId,
    /// The acceptor's payout destination.
    pub acceptor_payment: AccountId,
    /// The market the bet was opened under.
    pub betting_market: AccountId,
    /// The oracle price account of the bet.
    pub oracle_price: AccountId,
    /// The supplied fungible-asset program identity.
    pub token_program: AccountId,
    /// The supplied native-transfer program identity.
    pub system_program: AccountId,
}

/// The outcome of settling one accepted fill at time `now`.  The
/// finalizer must sign; the fill must not already be settled; every
/// cross-reference (market, oracle, commission, payout and escrow
/// accounts) must match the records exactly; and `now` must be at or
/// past the bet's expiration.  On success the oracle's settlement price
/// decides the winner, and three disjoint amounts leave the fill's
/// escrow: the commission, the finalizer's fee, and the remainder to the
/// winner's payout account; the fill is then marked finalized and never
/// mutated again.
pub open spec fn finalize_bet_spec(
    m: Map<AccountId, Account>,
    env: Env,
    k: FinalizeBetKeys,
    now: i64,
) -> Result<Map<AccountId, Account>, BetError> {
    if k.token_program != env.token_program_id {
        Err(BetError::InvalidSystemProgram)
    } else if k.system_program != env.system_program_id {
        Err(BetError::InvalidSystemProgram)
    } else if !k.finalizer_main_is_signer {
        Err(BetError::IncorrectSigner)
    } else if !m.contains_key(k.bet_state) {
        Err(BetError::InvalidAccountInput)
    } else {
        match m[k.bet_state].data {
            AccountData::BetState(b) => {
                if !m.contains_key(k.accepted_bet_state) {
                    Err(BetError::InvalidAccountInput)
                } else {
                    match m[k.accepted_bet_state].data {
                        AccountData::AcceptedState(ab) => {
                            if !m.contains_key(k.betting_market) {
                                Err(BetError::InvalidAccountInput)
                            } else {
                                match m[k.betting_market].data {
                                    AccountData::Market(mk) => finalize_bet_checked_spec(
                                        m,
                                        env,
                                        k,
                                        now,
                                        b,
                                        ab,
                                        mk,
                                    ),
                                    _ => Err(BetError::DataTypeMismatch),
                                }
                            }
                        },
                        _ => Err(BetError::DataTypeMismatch),
                    }
                }
            },
            _ => Err(BetError::DataTypeMismatch),
        }
    }
}

/// The cross-reference, timing, settlement and payout half of
/// [`finalize_bet_spec`], after the records have been read.
pub open spec fn finalize_bet_checked_spec(
    m: Map<AccountId, Account>,
    env: Env,
    k: FinalizeBetKeys,
    now: i64,
    b: Bet,
    ab: AcceptedBet,
    mk: BettingMarket,
) -> Result<Map<AccountId, Account>, BetError> {
    if ab.finalized {
        Err(BetError::BetFinalized)
    } else if b.betting_market != k.betting_market {
        Err(BetError::InvalidAccounts)
    } else if b.pyth_oracle_price_account != k.oracle_price {
        Err(BetError::InvalidAccounts)
    } else if mk.fee_commission_account != k.commission_fee {
        Err(BetError::InvalidAccounts)
    } else if b.creator_payment_account != k.creator_payment {
        Err(BetError::InvalidAccounts)
    } else if ab.acceptor_payment_account != k.acceptor_payment {
        Err(BetError::InvalidAccounts)
    } else if ab.accepted_bet_escrow_account != k.accepted_bet_escrow {
        Err(BetError::InvalidAccounts)
    } else if now < b.expiration_time {
        Err(BetError::BeforeExpiryTime)
    } else {
        match current_price_spec(m, k.oracle_price) {
            Err(e) => Err(e),
            Ok(p) => {
                let creator_wins = creator_wins_spec(
                    b.bet_direction,
                    b.bet_price as int,
                    p.price as int,
                );
                let winner = if creator_wins {
                    k.creator_payment
                } else {
                    k.acceptor_payment
                };
                let commission = (ab.bet_size as int / 50) as u64;
                let fee = (commission as int / 4) as u64;
                let winner_amount = (ab.bet_size - commission - fee) as u64;
                let moved = if mk.sol_payment {
                    match native_move_spec(m, k.accepted_bet_escrow, k.commission_fee, commission) {
                        Err(e) => Err(e),
                        Ok(m2) => match native_move_spec(
                            m2,
                            k.accepted_bet_escrow,
                            k.finalizer_payment,
                            fee,
                        ) {
                            Err(e) => Err(e),
                            Ok(m3) => native_move_spec(
                                m3,
                                k.accepted_bet_escrow,
                                winner,
                                winner_amount,
                            ),
                        },
                    }
                } else {
                    let authority = derive_authority_spec(b.bet_escrow_account);
                    match token_move_spec(
                        m,
                        k.accepted_bet_escrow,
                        k.commission_fee,
                        authority,
                        commission,
                    ) {
                        Err(e) => Err(e),
                        Ok(m2) => match token_move_spec(
                            m2,
                            k.accepted_bet_escrow,
                            winner,
                            authority,
                            winner_amount,
                        ) {
                            Err(e) => Err(e),
                            Ok(m3) => token_move_spec(
                                m3,
                                k.accepted_bet_escrow,
                                k.finalizer_payment,
                                authority,
                                fee,
                            ),
                        },
                    }
                };
                match moved {
                    Err(e) => Err(e),
                    Ok(mn) => {
                        let st = mn[k.accepted_bet_state];
                        let done = AcceptedBet { finalized: true, ..ab };
                        Ok(
                            mn.insert(
                                k.accepted_bet_state,
                                Account {
                                    owner: st.owner,
                                    lamports: st.lamports,
                                    data: AccountData::AcceptedState(done),
                                },
                            ),
                        )
                    },
                }
            },
        }
    }
}

/// Settles one accepted fill after expiry: pays the commission, the
/// finalizer's fee and the winner's amount out of the fill's escrow and
/// marks the fill finalized, atomically.
pub fn process_finalize_bet(l: &mut Ledger, env: &Env, k: &FinalizeBetKeys, now: i64) -> (r:
    Result<(), BetError>)
    requires
        old(l).wf(),
    ensures
        final(l).wf(),
        match finalize_bet_spec(old(l)@, *env, *k, now) {
            Ok(m2) => r == Ok::<(), BetError>(()) && final(l)@ == m2,
            Err(e) => r == Err::<(), BetError>(e) && final(l)@ == old(l)@,
        },
{
    if !(k.token_program == env.token_program_id) {
        return Err(BetError::InvalidSystemProgram);
    }
    if !(k.system_program == env.system_program_id) {
        return Err(BetError::InvalidSystemProgram);
    }
    if !k.finalizer_main_is_signer {
        return Err(BetError::IncorrectSigner);
    }
    let bet_acct = match l.get(&k.bet_state) {
        Some(acct) => acct,
        None => {
            return Err(BetError::InvalidAccountInput);
        },
    };
    let b = match bet_acct.data {
        AccountData::BetState(b) => b,
        _ => {
            return Err(BetError::DataTypeMismatch);
        },
    };
    let fill_acct = match l.get(&k.accepted_bet_state) {
        Some(acct) => acct,
        None => {
            return Err(BetError::InvalidAccountInput);
        },
    };
    let ab = match fill_acct.data {
        AccountData::AcceptedState(ab) => ab,
        _ => {
            return Err(BetError::DataTypeMismatch);
        },
    };
    let market_acct = match l.get(&k.betting_market) {
        Some(acct) => acct,
        None => {
            return Err(BetError::InvalidAccountInput);
        },
    };
    let mk = match market_acct.data {
        AccountData::Market(mk) => mk,
        _ => {
            return Err(BetError::DataTypeMismatch);
        },
    };
    if ab.finalized {
        return Err(BetError::BetFinalized);
    }
    if !(b.betting_market == k.betting_market) {
        return Err(BetError::InvalidAccounts);
    }
    if !(b.pyth_oracle_price_account == k.oracle_price) {
        return Err(BetError::InvalidAccounts);
    }
    if !(mk.fee_commission_account == k.commission_fee) {
        return Err(BetError::InvalidAccounts);
    }
    if !(b.creator_payment_account == k.creator_payment) {
        return Err(BetError::InvalidAccounts);
    }
    if !(ab.acceptor_payment_account == k.acceptor_payment) {
        return Err(BetError::InvalidAccounts);
    }
    if !(ab.accepted_bet_escrow_account == k.accepted_bet_escrow) {
        return Err(BetError::InvalidAccounts);
    }
    if now < b.expiration_time {
        return Err(BetError::BeforeExpiryTime);
    }
    let p = match current_price(l, &k.oracle_price) {
        Ok(p) => p,
        Err(e) => {
            return Err(e);
        },
    };
    let s = settle(b.bet_direction, b.bet_price, ab.bet_size, p.price);
    let winner: AccountId = if s.creator_wins {
        k.creator_payment
    } else {
        k.acceptor_payment
    };
    let mut work = l.duplicate();
    if mk.sol_payment {
        match native_move(&mut work, &k.accepted_bet_escrow, &k.commission_fee, s.commission) {
            Ok(()) => {},
            Err(e) => {
                return Err(e);
            },
        }
        match native_move(&mut work, &k.accepted_bet_escrow, &k.finalizer_payment, s.finalizer_fee)
        {
            Ok(()) => {},
            Err(e) => {
                return Err(e);
            },
        }
        match native_move(&mut work, &k.accepted_bet_escrow, &winner, s.winner_amount) {
            Ok(()) => {},
            Err(e) => {
                return Err(e);
            },
        }
    } else {
        let authority = derive_authority(&b.bet_escrow_account);
        match token_move(&mut work, &k.accepted_bet_escrow, &k.commission_fee, &authority, s.commission)
        {
            Ok(()) => {},
            Err(e) => {
                return Err(e);
            },
        }
        match token_move(&mut work, &k.accepted_bet_escrow, &winner, &authority, s.winner_amount) {
            Ok(()) => {},
            Err(e) => {
                return Err(e);
            },
        }
        match token_move(&mut work, &k.accepted_bet_escrow, &k.finalizer_payment, &authority, s.finalizer_fee)
        {
            Ok(()) => {},
            Err(e) => {
                return Err(e);
            },
        }
    }
    let st = match work.get(&k.accepted_bet_state) {
        Some(acct) => acct,
        None => {
            return Err(BetError::InvalidAccountInput);
        },
    };
    let done = AcceptedBet { finalized: true, ..ab };
    work.put(
        k.accepted_bet_state,
        Account { owner: st.owner, lamports: st.lamports, data: AccountData::AcceptedState(done) },
    );
    *l = work;
    Ok(())
}

/// The outcome of one submitted transition: the payload is decoded once,
/// the positional account list is read as the decoded transition lays it
/// out, and the transition's own specification decides the rest.  A
/// payload that does not decode fails with `InvalidInstruction`; a list
/// with too few accounts fails with `InvalidAccountInput`.
pub open spec fn process_instruction_spec(
    m: Map<AccountId, Account>,
    env: Env,
    rent: Rent,
    now: i64,
    accounts: Seq<AccountMeta>,
    input: Seq<u8>,
) -> Result<Map<AccountId, Account>, BetError> {
    match dec_instruction(input) {
        Err(e) => Err(e),
        Ok(instr) => match instr {
            BetInstruction::InitBettingMarket(a) => {
                if accounts.len() < 4 {
                    Err(BetError::InvalidAccountInput)
                } else {
                    init_betting_market_spec(
                        m,
                        env,
                        InitMarketKeys {
                            owner: accounts[0].id,
                            owner_is_signer: accounts[0].is_signer,
                            betting_market: accounts[1].id,
                            commission_fee: accounts[2].id,
                            pyth_program: accounts[3].id,
                        },
                        a.sol_payment,
                        a.payment_mint,
                    )
                }
            },
            BetInstruction::CreateBet(a) => {
                if accounts.len() < 10 {
                    Err(BetError::InvalidAccountInput)
                } else {
                    create_bet_spec(
                        m,
                        env,
                        rent,
                        CreateBetKeys {
                            creator_main: accounts[0].id,
                            creator_main_is_signer: accounts[0].is_signer,
                            creator_payment: accounts[1].id,
                            bet_state: accounts[2].id,
                            bet_escrow: accounts[3].id,
                            betting_market: accounts[4].id,
                            oracle_product: accounts[5].id,
                            oracle_price: accounts[6].id,
                            token_program: accounts[8].id,
                            system_program: accounts[9].id,
                        },
                        BetTerms {
                            bet_size: a.bet_size,
                            odds: a.odds,
                            expiration_time: a.expiration_time,
                            bet_direction: a.bet_direction,
                            bet_price: a.bet_price,
                            cancel_condition: a.cancel_condition,
                            variable_odds: a.variable_odds,
                        },
                    )
                }
            },
            BetInstruction::AcceptBet(a) => {
                if accounts.len() < 12 {
                    Err(BetError::InvalidAccountInput)
                } else {
                    accept_bet_spec(
                        m,
                        env,
                        rent,
                        AcceptBetKeys {
                            acceptor_main: accounts[0].id,
                            acceptor_main_is_signer: accounts[0].is_signer,
                            acceptor_payment: accounts[1].id,
                            bet_state: accounts[2].id,
                            bet_escrow: accounts[3].id,
                            accepted_bet_state: accounts[4].id,
                            accepted_bet_escrow: accounts[5].id,
                            betting_market: accounts[6].id,
                            oracle_price: accounts[7].id,
                            token_program: accounts[9].id,
                            system_program: accounts[10].id,
                        },
                        now,
                        a.bet_size,
                    )
                }
            },
            BetInstruction::CancelBet() => {
                if accounts.len() < 7 {
                    Err(BetError::InvalidAccountInput)
                } else {
                    cancel_bet_spec(
                        m,
                        env,
                        CancelBetKeys {
                            creator_main: accounts[0].id,
                            creator_main_is_signer: accounts[0].is_signer,
                            creator_payment: accounts[1].id,
                            bet_state: accounts[2].id,
                            bet_escrow: accounts[3].id,
                            betting_market: accounts[4].id,
                            token_program: accounts[5].id,
                            system_program: accounts[6].id,
                        },
                    )
                }
            },
            BetInstruction::FinalizeBet() => {
                if accounts.len() < 12 {
                    Err(BetError::InvalidAccountInput)
                } else {
                    finalize_bet_spec(
                        m,
                        env,
                        FinalizeBetKeys {
                            finalizer_main: accounts[0].id,
                            finalizer_main_is_signer: accounts[0].is_signer,
                            finalizer_payment: accounts[1].id,
                            commission_fee: accounts[2].id,
                            bet_state: accounts[3].id,
                            accepted_bet_state: accounts[4].id,
                            accepted_bet_escrow: accounts[5].id,
                            creator_payment: accounts[6].id,
                            acceptor_payment: accounts[7].id,
                            betting_market: accounts[8].id,
                            oracle_price: accounts[9].id,
                            token_program: accounts[10].id,
                            system_program: accounts[11].id,
                        },
                        now,
                    )
                }
            },
        },
    }
}

/// Validity of a submission's inputs against the store: an acceptance
/// must not price a bet whose stored variable-odds divisor is zero.
pub open spec fn instruction_inputs_ok(
    m: Map<AccountId, Account>,
    accounts: Seq<AccountMeta>,
    input: Seq<u8>,
) -> bool {
    match dec_instruction(input) {
        Ok(BetInstruction::AcceptBet(_)) => accounts.len() >= 12 ==> stored_bet_divisor_ok(
            m,
            accounts[2].id,
        ),
        _ => true,
    }
}

/// Decodes one submitted transition and dispatches it by its tag,
/// atomically.
pub fn process_instruction(
    l: &mut Ledger,
    env: &Env,
    rent: &Rent,
    now: i64,
    accounts: &Vec<AccountMeta>,
    input: &[u8],
) -> (r: Result<(), BetError>)
    requires
        old(l).wf(),
        instruction_inputs_ok(old(l)@, accounts@, input@),
    ensures
        final(l).wf(),
        match process_instruction_spec(old(l)@, *env, *rent, now, accounts@, input@) {
            Ok(m2) => r == Ok::<(), BetError>(()) && final(l)@ == m2,
            Err(e) => r == Err::<(), BetError>(e) && final(l)@ == old(l)@,
        },
{
    let instr = match BetInstruction::from_bytes(input) {
        Ok(instr) => instr,
        Err(e) => {
            return Err(e);
        },
    };
    match instr {
        BetInstruction::InitBettingMarket(a) => {
            if accounts.len() < 4 {
                return Err(BetError::InvalidAccountInput);
            }
            let k = InitMarketKeys {
                owner: accounts[0].id,
                owner_is_signer: accounts[0].is_signer,
                betting_market: accounts[1].id,
                commission_fee: accounts[2].id,
                pyth_program: accounts[3].id,
            };
            process_init_betting_market(l, env, &k, a.sol_payment, &a.payment_mint)
        },
        BetInstruction::CreateBet(a) => {
            if accounts.len() < 10 {
                return Err(BetError::InvalidAccountInput);
            }
            let k = CreateBetKeys {
                creator_main: accounts[0].id,
                creator_main_is_signer: accounts[0].is_signer,
                creator_payment: accounts[1].id,
                bet_state: accounts[2].id,
                bet_escrow: accounts[3].id,
                betting_market: accounts[4].id,
                oracle_product: accounts[5].id,
                oracle_price: accounts[6].id,
                token_program: accounts[8].id,
                system_program: accounts[9].id,
            };
            let terms = BetTerms {
                bet_size: a.bet_size,
                odds: a.odds,
                expiration_time: a.expiration_time,
                bet_direction: a.bet_direction,
                bet_price: a.bet_price,
                cancel_condition: a.cancel_condition,
                variable_odds: a.variable_odds,
            };
            process_create_bet(l, env, rent, &k, &terms)
        },
        BetInstruction::AcceptBet(a) => {
            if accounts.len() < 12 {
                return Err(BetError::InvalidAccountInput);
            }
            let k = AcceptBetKeys {
                acceptor_main: accounts[0].id,
                acceptor_main_is_signer: accounts[0].is_signer,
                acceptor_payment: accounts[1].id,
                bet_state: accounts[2].id,
                bet_escrow: accounts[3].id,
                accepted_bet_state: accounts[4].id,
                accepted_bet_escrow: accounts[5].id,
                betting_market: accounts[6].id,
                oracle_price: accounts[7].id,
                token_program: accounts[9].id,
                system_program: accounts[10].id,
            };
            process_accept_bet(l, env, rent, &k, now, a.bet_size)
        },
        BetInstruction::CancelBet() => {
            if accounts.len() < 7 {
                return Err(BetError::InvalidAccountInput);
            }
            let k = CancelBetKeys {
                creator_main: accounts[0].id,
                creator_main_is_signer: accounts[0].is_signer,
                creator_payment: accounts[1].id,
                bet_state: accounts[2].id,
                bet_escrow: accounts[3].id,
                betting_market: accounts[4].id,
                token_program: accounts[5].id,
                system_program: accounts[6].id,
            };
            process_cancel_bet(l, env, &k)
        },
        BetInstruction::FinalizeBet() => {
            if accounts.len() < 12 {
                return Err(BetError::InvalidAccountInput);
            }
            let k = FinalizeBetKeys {
                finalizer_main: accounts[0].id,
                finalizer_main_is_signer: accounts[0].is_signer,
                finalizer_payment: accounts[1].id,
                commission_fee: accounts[2].id,
                bet_state: accounts[3].id,
                accepted_bet_state: accounts[4].id,
                accepted_bet_escrow: accounts[5].id,
                creator_payment: accounts[6].id,
                acceptor_payment: accounts[7].id,
                betting_market: accounts[8].id,
                oracle_price: accounts[9].id,
                token_program: accounts[10].id,
                system_program: accounts[11].id,
            };
            process_finalize_bet(l, env, &k, now)
        },
    }
}

/// A successful creation samples the starting price from the oracle and
/// writes a record with no stake yet accepted, not cancelled, and odds at
/// or above the break-even floor.
pub proof fn lemma_create_bet_initializes(
    m: Map<AccountId, Account>,
    env: Env,
    rent: Rent,
    k: CreateBetKeys,
    a: BetTerms,
)
    requires
        create_bet_spec(m, env, rent, k, a) is Ok,
    ensures
        current_price_spec(m, k.oracle_price) is Ok,
        ({
            let m2 = create_bet_spec(m, env, rent, k, a)->Ok_0;
            &&& m2.contains_key(k.bet_state)
            &&& m2[k.bet_state].data matches AccountData::BetState(rec) && {
                &&& rec.is_initialized
                &&& rec.start_price == current_price_spec(m, k.oracle_price)->Ok_0.price
                &&& rec.total_amount_accepted == 0
                &&& !rec.cancelled
                &&& rec.wf()
            }
        }),
{
}

/// A successful cancellation leaves the bet record in place with only its
/// `cancelled` flag raised; the terms are untouched, so the flag is
/// monotonic: no transition ever clears it.
pub proof fn lemma_cancel_sets_cancelled(m: Map<AccountId, Account>, env: Env, k: CancelBetKeys)
    requires
        cancel_bet_spec(m, env, k) is Ok,
        m.contains_key(k.bet_state),
        m[k.bet_state].data is BetState,
    ensures
        ({
            let b = m[k.bet_state].data->BetState_0;
            let m2 = cancel_bet_spec(m, env, k)->Ok_0;
            &&& m2.contains_key(k.bet_state)
            &&& m2[k.bet_state].data == AccountData::BetState(Bet { cancelled: true, ..b })
        }),
{
}

/// The checks an acceptance performs before it looks at the cancelled
/// flag: program identities, the acceptor's signature, the shape of the
/// fill record account, and the market and escrow cross-references.
pub open spec fn accept_pre_cancel_ok(
    m: Map<AccountId, Account>,
    env: Env,
    rent: Rent,
    k: AcceptBetKeys,
) -> bool {
    &&& k.token_program == env.token_program_id
    &&& k.system_program == env.system_program_id
    &&& k.acceptor_main_is_signer
    &&& m.contains_key(k.accepted_bet_state)
    &&& m[k.accepted_bet_state].owner == env.program_id
    &&& rent_exempt_spec(rent, m[k.accepted_bet_state])
    &&& m[k.accepted_bet_state].data matches AccountData::Empty { size }
        && size >= ACCEPTED_RECORD_LEN
    &&& m.contains_key(k.betting_market)
    &&& m[k.betting_market].data is Market
    &&& m.contains_key(k.bet_state)
    &&& m[k.bet_state].data is BetState
    &&& m[k.bet_state].data->BetState_0.betting_market == k.betting_market
    &&& m[k.bet_state].data->BetState_0.bet_escrow_account == k.bet_escrow
}

/// No acceptance ever succeeds against a cancelled bet, and once every
/// check ahead of the cancellation check passes, the reported reason is
/// exactly `BetCancelled`.
#[verifier::spinoff_prover]
#[verifier::rlimit(100)]
pub proof fn lemma_cancelled_bet_rejects_accept(
    m: Map<AccountId, Account>,
    env: Env,
    rent: Rent,
    k: AcceptBetKeys,
    now: i64,
    size: u64,
)
    requires
        m.contains_key(k.bet_state),
        m[k.bet_state].data matches AccountData::BetState(b) && b.cancelled,
    ensures
        accept_bet_spec(m, env, rent, k, now, size) is Err,
        accept_pre_cancel_ok(m, env, rent, k) ==> accept_bet_spec(m, env, rent, k, now, size)
            == Err::<Map<AccountId, Account>, BetError>(BetError::BetCancelled),
{
}

/// Cancelling a bet and then attempting any acceptance against the same
/// record fails; with every earlier check passing, it fails with
/// `BetCancelled`.
#[verifier::spinoff_prover]
#[verifier::rlimit(100)]
pub proof fn lemma_cancel_then_accept_fails(
    m: Map<AccountId, Account>,
    env: Env,
    rent: Rent,
    kc: CancelBetKeys,
    ka: AcceptBetKeys,
    now: i64,
    size: u64,
)
    requires
        cancel_bet_spec(m, env, kc) is Ok,
        m.contains_key(kc.bet_state),
        m[kc.bet_state].data is BetState,
        ka.bet_state == kc.bet_state,
    ensures
        ({
            let m2 = cancel_bet_spec(m, env, kc)->Ok_0;
            &&& accept_bet_spec(m2, env, rent, ka, now, size) is Err
            &&& accept_pre_cancel_ok(m2, env, rent, ka) ==> accept_bet_spec(
                m2,
                env,
                rent,
                ka,
                now,
                size,
            ) == Err::<Map<AccountId, Account>, BetError>(BetError::BetCancelled)
        }),
{
    lemma_cancel_sets_cancelled(m, env, kc);
    let m2 = cancel_bet_spec(m, env, kc)->Ok_0;
    lemma_cancelled_bet_rejects_accept(m2, env, rent, ka, now, size);
}

/// A successful acceptance writes a fill record carrying exactly the
/// effective odds at the sampled price, never below the break-even
/// floor, back-referencing the parent bet, not yet finalized; and it
/// leaves the parent bet record itself untouched, its escrow reference
/// included.
#[verifier::spinoff_prover]
#[verifier::rlimit(100)]
pub proof fn lemma_accept_locks_in_odds(
    m: Map<AccountId, Account>,
    env: Env,
    rent: Rent,
    k: AcceptBetKeys,
    now: i64,
    size: u64,
)
    requires
        accept_bet_spec(m, env, rent, k, now, size) is Ok,
        k.accepted_bet_state != k.bet_state,
    ensures
        current_price_spec(m, k.oracle_price) is Ok,
        ({
            let m2 = accept_bet_spec(m, env, rent, k, now, size)->Ok_0;
            let p = current_price_spec(m, k.oracle_price)->Ok_0;
            &&& m2.contains_key(k.accepted_bet_state)
            &&& m2[k.accepted_bet_state].data matches AccountData::AcceptedState(fill) && {
                &&& fill.bet == k.bet_state
                &&& fill.accepted_bet_escrow_account == k.accepted_bet_escrow
                &&& fill.odds == acceptance_odds_math(m[k.bet_state].data->BetState_0, p.price as int)
                &&& fill.odds >= 100
                &&& fill.bet_size == size
                &&& !fill.finalized
            }
            &&& m2.contains_key(k.bet_state)
            &&& m2[k.bet_state].data == m[k.bet_state].data
        }),
{
}

/// A partial fill spends the shared escrow exactly once: under native
/// payment, with the bet's escrow, the fill's escrow and the acceptor's
/// payment account pairwise distinct, acceptance debits the bet's
/// escrow by exactly the stake taken, debits the acceptor by exactly
/// the required payment at the locked-in odds, and credits both to the
/// fill's escrow.
#[verifier::spinoff_prover]
#[verifier::rlimit(100)]
pub proof fn lemma_accept_conserves_stake(
    m: Map<AccountId, Account>,
    env: Env,
    rent: Rent,
    k: AcceptBetKeys,
    now: i64,
    size: u64,
)
    requires
        accept_bet_spec(m, env, rent, k, now, size) is Ok,
        m.contains_key(k.betting_market),
        m[k.betting_market].data matches AccountData::Market(mk) && mk.sol_payment,
        k.bet_escrow != k.accepted_bet_escrow,
        k.bet_escrow != k.acceptor_payment,
        k.accepted_bet_escrow != k.acceptor_payment,
        k.accepted_bet_state != k.bet_escrow,
        k.accepted_bet_state != k.accepted_bet_escrow,
        k.accepted_bet_state != k.acceptor_payment,
    ensures
        ({
            let m2 = accept_bet_spec(m, env, rent, k, now, size)->Ok_0;
            let p = current_price_spec(m, k.oracle_price)->Ok_0;
            let odds = acceptance_odds_math(m[k.bet_state].data->BetState_0, p.price as int);
            let pay = required_payment_math(size as int, odds);
            &&& m2[k.bet_escrow].lamports == m[k.bet_escrow].lamports - size
            &&& m2[k.acceptor_payment].lamports == m[k.acceptor_payment].lamports - pay
            &&& m2[k.accepted_bet_escrow].lamports == m[k.accepted_bet_escrow].lamports + size
                + pay
        }),
{
}

/// A successful settlement leaves the fill record in place with only its
/// `finalized` flag raised, and leaves the parent bet record untouched.
#[verifier::spinoff_prover]
#[verifier::rlimit(100)]
pub proof fn lemma_finalize_marks_finalized(
    m: Map<AccountId, Account>,
    env: Env,
    k: FinalizeBetKeys,
    now: i64,
)
    requires
        finalize_bet_spec(m, env, k, now) is Ok,
        m.contains_key(k.bet_state),
        m[k.bet_state].data is BetState,
        m.contains_key(k.accepted_bet_state),
        m[k.accepted_bet_state].data is AcceptedState,
    ensures
        ({
            let ab = m[k.accepted_bet_state].data->AcceptedState_0;
            let m2 = finalize_bet_spec(m, env, k, now)->Ok_0;
            &&& m2.contains_key(k.accepted_bet_state)
            &&& m2[k.accepted_bet_state].data == AccountData::AcceptedState(
                AcceptedBet { finalized: true, ..ab },
            )
            &&& m2.contains_key(k.bet_state)
            &&& m2[k.bet_state].data == m[k.bet_state].data
        }),
{
}

/// Funds leaving the fill's escrow at settlement are accounted for
/// exactly once: under native payment, with the escrow and the three
/// payout destinations pairwise distinct, the escrow loses exactly the
/// fill's stake, and the commission account, the finalizer and the
/// winner gain the three disjoint shares that sum to it.
#[verifier::spinoff_prover]
#[verifier::rlimit(100)]
pub proof fn lemma_finalize_conserves_stake(
    m: Map<AccountId, Account>,
    env: Env,
    k: FinalizeBetKeys,
    now: i64,
)
    requires
        finalize_bet_spec(m, env, k, now) is Ok,
        m.contains_key(k.accepted_bet_state),
        m[k.accepted_bet_state].data is AcceptedState,
        m.contains_key(k.betting_market),
        m[k.betting_market].data matches AccountData::Market(mk) && mk.sol_payment,
        k.accepted_bet_escrow != k.commission_fee,
        k.accepted_bet_escrow != k.finalizer_payment,
        k.accepted_bet_escrow != k.creator_payment,
        k.accepted_bet_escrow != k.acceptor_payment,
        k.commission_fee != k.finalizer_payment,
        k.commission_fee != k.creator_payment,
        k.commission_fee != k.acceptor_payment,
        k.finalizer_payment != k.creator_payment,
        k.finalizer_payment != k.acceptor_payment,
    ensures
        ({
            let m2 = finalize_bet_spec(m, env, k, now)->Ok_0;
            let ab = m[k.accepted_bet_state].data->AcceptedState_0;
            let commission = ab.bet_size / 50;
            let fee = commission / 4;
            let winner_amount = ab.bet_size - commission - fee;
            let p = current_price_spec(m, k.oracle_price)->Ok_0;
            let winner = if creator_wins_spec(
                m[k.bet_state].data->BetState_0.bet_direction,
                m[k.bet_state].data->BetState_0.bet_price as int,
                p.price as int,
            ) {
                k.creator_payment
            } else {
                k.acceptor_payment
            };
            &&& commission + fee + winner_amount == ab.bet_size
            &&& m2[k.accepted_bet_escrow].lamports == m[k.accepted_bet_escrow].lamports
                - ab.bet_size
            &&& m2[k.commission_fee].lamports == m[k.commission_fee].lamports + commission
            &&& m2[k.finalizer_payment].lamports == m[k.finalizer_payment].lamports + fee
            &&& m2[winner].lamports == m[winner].lamports + winner_amount
        }),
{
    let ab = m[k.accepted_bet_state].data->AcceptedState_0;
    vstd::arithmetic::div_mod::lemma_fundamental_div_mod(ab.bet_size as int, 50);
    vstd::arithmetic::div_mod::lemma_fundamental_div_mod((ab.bet_size / 50) as int, 4);
}

/// Settling the same fill twice fails: the second attempt, whatever time
/// it is submitted at, reports `BetFinalized` (and, being a failure,
/// leaves every balance unchanged).
#[verifier::spinoff_prover]
#[verifier::rlimit(100)]
pub proof fn lemma_finalize_twice_fails(
    m: Map<AccountId, Account>,
    env: Env,
    k: FinalizeBetKeys,
    now1: i64,
    now2: i64,
)
    requires
        finalize_bet_spec(m, env, k, now1) is Ok,
    ensures
        finalize_bet_spec(finalize_bet_spec(m, env, k, now1)->Ok_0, env, k, now2) == Err::<
            Map<AccountId, Account>,
            BetError,
        >(BetError::BetFinalized),
{
}

/// Every market configuration the initialization writes satisfies the
/// market invariant: the payment-mode flag and the asset identity agree.
pub proof fn lemma_init_market_invariant(
    m: Map<AccountId, Account>,
    env: Env,
    k: InitMarketKeys,
    sol_payment: bool,
    payment_mint: Option<AccountId>,
)
    requires
        init_betting_market_spec(m, env, k, sol_payment, payment_mint) is Ok,
    ensures
        ({
            let m2 = init_betting_market_spec(m, env, k, sol_payment, payment_mint)->Ok_0;
            &&& m2.contains_key(k.betting_market)
            &&& m2[k.betting_market].data matches AccountData::Market(rec) && rec.wf()
        }),
{
}

} // verus!
