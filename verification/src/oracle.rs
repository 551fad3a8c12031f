//! The oracle boundary: authenticity of an oracle account pair, and the
//! narrow "current price plus confidence, as of now" query.
//!
//! The oracle's own byte layout is outside this protocol; what the
//! protocol reads of it is the typed view in [`crate::state`]: the product
//! account's schema tag, version and kind, its embedded price-account
//! reference, and the price account's current sample.

use vstd::prelude::*;
use crate::error::BetError;
use crate::ids::AccountId;
use crate::ledger::{Account, AccountData, Ledger};
use crate::state::{OraclePrice, ORACLE_MAGIC, ORACLE_PRODUCT_KIND, ORACLE_VERSION};

verus! {

/// Whether the pair (`product`, `price`) is an authentic account pair of
/// the trusted oracle program: both owned by it, the product carrying the
/// expected schema tag, version and account kind, and publishing through
/// exactly the supplied price account.
pub open spec fn validate_pyth_keys_spec(
    m: Map<AccountId, Account>,
    oracle_program_id: AccountId,
    product: AccountId,
    price: AccountId,
) -> Result<(), BetError> {
    if !m.contains_key(product) || !m.contains_key(price) {
        Err(BetError::InvalidAccountInput)
    } else if m[product].owner != oracle_program_id {
        Err(BetError::InvalidOracleConfig)
    } else if m[price].owner != oracle_program_id {
        Err(BetError::InvalidOracleConfig)
    } else {
        match m[product].data {
            AccountData::OracleProduct(p) => {
                if p.magic != ORACLE_MAGIC {
                    Err(BetError::InvalidOracleConfig)
                } else if p.ver != ORACLE_VERSION {
                    Err(BetError::InvalidOracleConfig)
                } else if p.atype != ORACLE_PRODUCT_KIND {
                    Err(BetError::InvalidOracleConfig)
                } else if p.px_acc != price {
                    Err(BetError::InvalidOracleConfig)
                } else {
                    Ok(())
                }
            },
            _ => Err(BetError::InvalidOracleConfig),
        }
    }
}

/// The oracle's current sample at `price_acct`, failing when the account
/// is not a price account or has no current aggregate.
pub open spec fn current_price_spec(m: Map<AccountId, Account>, price_acct: AccountId) -> Result<
    OraclePrice,
    BetError,
> {
    if !m.contains_key(price_acct) {
        Err(BetError::InvalidAccountInput)
    } else {
        match m[price_acct].data {
            AccountData::OraclePrice(p) => {
                if p.has_current {
                    Ok(p)
                } else {
                    Err(BetError::InvalidPriceAccount)
                }
            },
            _ => Err(BetError::InvalidPriceAccount),
        }
    }
}

/// Checks that an oracle account pair belongs to the trusted oracle
/// program and is internally consistent.
pub fn validate_pyth_keys(
    l: &Ledger,
    oracle_program_id: &AccountId,
    product: &AccountId,
    price: &AccountId,
) -> (r: Result<(), BetError>)
    requires
        l.wf(),
    ensures
        r == validate_pyth_keys_spec(l@, *oracle_program_id, *product, *price),
{
    let product_acct = match l.get(product) {
        Some(a) => a,
        None => {
            return Err(BetError::InvalidAccountInput);
        },
    };
    let price_acct = match l.get(price) {
        Some(a) => a,
        None => {
            return Err(BetError::InvalidAccountInput);
        },
    };
    if !(product_acct.owner == *oracle_program_id) {
        return Err(BetError::InvalidOracleConfig);
    }
    if !(price_acct.owner == *oracle_program_id) {
        return Err(BetError::InvalidOracleConfig);
    }
    match product_acct.data {
        AccountData::OracleProduct(p) => {
            if p.magic != ORACLE_MAGIC {
                Err(BetError::InvalidOracleConfig)
            } else if p.ver != ORACLE_VERSION {
                Err(BetError::InvalidOracleConfig)
            } else if p.atype != ORACLE_PRODUCT_KIND {
                Err(BetError::InvalidOracleConfig)
            } else if !(p.px_acc == *price) {
                Err(BetError::InvalidOracleConfig)
            } else {
                Ok(())
            }
        },
        _ => Err(BetError::InvalidOracleConfig),
    }
}

/// Reads the oracle's current price sample.
pub fn current_price(l: &Ledger, price_acct: &AccountId) -> (r: Result<OraclePrice, BetError>)
    requires
        l.wf(),
    ensures
        r == current_price_spec(l@, *price_acct),
{
    let a = match l.get(price_acct) {
        Some(a) => a,
        None => {
            return Err(BetError::InvalidAccountInput);
        },
    };
    match a.data {
        AccountData::OraclePrice(p) => {
            if p.has_current {
                Ok(p)
            } else {
                Err(BetError::InvalidPriceAccount)
            }
        },
        _ => Err(BetError::InvalidPriceAccount),
    }
}

} // verus!
