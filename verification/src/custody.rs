//! Escrow custody: moving stake between ledger accounts.
//!
//! Two payment modes stand behind one contract.  In native mode the
//! protocol owns the escrow account directly and balances move between
//! `lamports` fields.  In asset mode the escrow is a fungible-token
//! account whose transfer authority was reassigned, at bet creation, to
//! the derived authority of [`crate::ids::derive_authority`]; a move must
//! present that authority.  Every movement is checked: a debit beyond the
//! source balance fails with `AmountUnderflow`, a credit past the
//! destination's capacity with `AmountOverflow`, and either failure leaves
//! the store untouched.

use vstd::prelude::*;
use crate::error::BetError;
use crate::ids::AccountId;
use crate::ledger::{Account, AccountData, Ledger};
use crate::state::TokenAccount;

verus! {

/// The store after moving `amount` native units from `from` to `to`:
/// debit then credit, each checked, applied sequentially so that a move
/// from an account to itself is a no-op that still must pass both checks.
pub open spec fn native_move_spec(
    m: Map<AccountId, Account>,
    from: AccountId,
    to: AccountId,
    amount: u64,
) -> Result<Map<AccountId, Account>, BetError> {
    if !m.contains_key(from) {
        Err(BetError::InvalidAccountInput)
    } else if m[from].lamports < amount {
        Err(BetError::AmountUnderflow)
    } else {
        let fa = m[from];
        let m1 = m.insert(
            from,
            Account { owner: fa.owner, lamports: (fa.lamports - amount) as u64, data: fa.data },
        );
        if !m1.contains_key(to) {
            Err(BetError::InvalidAccountInput)
        } else if m1[to].lamports + amount > u64::MAX {
            Err(BetError::AmountOverflow)
        } else {
            let ta = m1[to];
            Ok(
                m1.insert(
                    to,
                    Account {
                        owner: ta.owner,
                        lamports: (ta.lamports + amount) as u64,
                        data: ta.data,
                    },
                ),
            )
        }
    }
}

/// The store after moving `amount` asset units from token account `from`
/// to token account `to`, presenting `authority` for the source.  The
/// source must be controlled by the presented authority, both accounts
/// must hold the same asset, and debit and credit are checked as in
/// native mode.
pub open spec fn token_move_spec(
    m: Map<AccountId, Account>,
    from: AccountId,
    to: AccountId,
    authority: AccountId,
    amount: u64,
) -> Result<Map<AccountId, Account>, BetError> {
    if !m.contains_key(from) {
        Err(BetError::InvalidAccountInput)
    } else {
        match m[from].data {
            AccountData::Token(t) => {
                if t.authority != authority {
                    Err(BetError::IncorrectOwner)
                } else if t.amount < amount {
                    Err(BetError::AmountUnderflow)
                } else {
                    let fa = m[from];
                    let m1 = m.insert(
                        from,
                        Account {
                            owner: fa.owner,
                            lamports: fa.lamports,
                            data: AccountData::Token(
                                TokenAccount {
                                    mint: t.mint,
                                    authority: t.authority,
                                    amount: (t.amount - amount) as u64,
                                },
                            ),
                        },
                    );
                    if !m1.contains_key(to) {
                        Err(BetError::InvalidAccountInput)
                    } else {
                        match m1[to].data {
                            AccountData::Token(t2) => {
                                if t2.mint != t.mint {
                                    Err(BetError::InvalidMint)
                                } else if t2.amount + amount > u64::MAX {
                                    Err(BetError::AmountOverflow)
                                } else {
                                    let ta = m1[to];
                                    Ok(
                                        m1.insert(
                                            to,
                                            Account {
                                                owner: ta.owner,
                                                lamports: ta.lamports,
                                                data: AccountData::Token(
                                                    TokenAccount {
                                                        mint: t2.mint,
                                                        authority: t2.authority,
                                                        amount: (t2.amount + amount) as u64,
                                                    },
                                                ),
                                            },
                                        ),
                                    )
                                }
                            },
                            _ => Err(BetError::IsNotTokenAccount),
                        }
                    }
                }
            },
            _ => Err(BetError::IsNotTokenAccount),
        }
    }
}

/// Moves `amount` native units from `from` to `to`, atomically: on any
/// failure the store is unchanged.
pub fn native_move(l: &mut Ledger, from: &AccountId, to: &AccountId, amount: u64) -> (r: Result<
    (),
    BetError,
>)
    requires
        old(l).wf(),
    ensures
        final(l).wf(),
        match native_move_spec(old(l)@, *from, *to, amount) {
            Ok(m2) => r == Ok::<(), BetError>(()) && final(l)@ == m2,
            Err(e) => r == Err::<(), BetError>(e) && final(l)@ == old(l)@,
        },
{
    let fa = match l.get(from) {
        Some(a) => a,
        None => {
            return Err(BetError::InvalidAccountInput);
        },
    };
    if fa.lamports < amount {
        return Err(BetError::AmountUnderflow);
    }
    let to_before = match l.get(to) {
        Some(a) => a,
        None => {
            return Err(BetError::InvalidAccountInput);
        },
    };
    let to_balance: u64 = if to == from {
        fa.lamports - amount
    } else {
        to_before.lamports
    };
    if to_balance > u64::MAX - amount {
        return Err(BetError::AmountOverflow);
    }
    l.put(*from, Account { owner: fa.owner, lamports: fa.lamports - amount, data: fa.data });
    let ta = match l.get(to) {
        Some(a) => a,
        None => {
            return Err(BetError::InvalidAccountInput);
        },
    };
    l.put(*to, Account { owner: ta.owner, lamports: ta.lamports + amount, data: ta.data });
    Ok(())
}

/// Moves `amount` asset units from token account `from` to token account
/// `to`, presenting `authority` for the source, atomically: on any
/// failure the store is unchanged.
pub fn token_move(
    l: &mut Ledger,
    from: &AccountId,
    to: &AccountId,
    authority: &AccountId,
    amount: u64,
) -> (r: Result<(), BetError>)
    requires
        old(l).wf(),
    ensures
        final(l).wf(),
        match token_move_spec(old(l)@, *from, *to, *authority, amount) {
            Ok(m2) => r == Ok::<(), BetError>(()) && final(l)@ == m2,
            Err(e) => r == Err::<(), BetError>(e) && final(l)@ == old(l)@,
        },
{
    let fa = match l.get(from) {
        Some(a) => a,
        None => {
            return Err(BetError::InvalidAccountInput);
        },
    };
    let t = match fa.data {
        AccountData::Token(t) => t,
        _ => {
            return Err(BetError::IsNotTokenAccount);
        },
    };
    if !(t.authority == *authority) {
        return Err(BetError::IncorrectOwner);
    }
    if t.amount < amount {
        return Err(BetError::AmountUnderflow);
    }
    let to_before = match l.get(to) {
        Some(a) => a,
        None => {
            return Err(BetError::InvalidAccountInput);
        },
    };
    let t2 = if to == from {
        TokenAccount { mint: t.mint, authority: t.authority, amount: t.amount - amount }
    } else {
        match to_before.data {
            AccountData::Token(t2) => t2,
            _ => {
                return Err(BetError::IsNotTokenAccount);
            },
        }
    };
    if !(t2.mint == t.mint) {
        return Err(BetError::InvalidMint);
    }
    if t2.amount > u64::MAX - amount {
        return Err(BetError::AmountOverflow);
    }
    l.put(
        *from,
        Account {
            owner: fa.owner,
            lamports: fa.lamports,
            data: AccountData::Token(
                TokenAccount { mint: t.mint, authority: t.authority, amount: t.amount - amount },
            ),
        },
    );
    let ta = match l.get(to) {
        Some(a) => a,
        None => {
            return Err(BetError::InvalidAccountInput);
        },
    };
    let tb = match ta.data {
        AccountData::Token(tb) => tb,
        _ => {
            return Err(BetError::IsNotTokenAccount);
        },
    };
    l.put(
        *to,
        Account {
            owner: ta.owner,
            lamports: ta.lamports,
            data: AccountData::Token(
                TokenAccount { mint: tb.mint, authority: tb.authority, amount: tb.amount + amount },
            ),
        },
    );
    Ok(())
}

} // verus!
