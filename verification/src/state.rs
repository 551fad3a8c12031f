//! Ledger-resident records: the market configuration, one record per open
//! bet, and one record per accepting fill.
//!
//! Each record has a fixed-width byte layout (see [`crate::codec`]); the
//! length constants here are the sums of the field widths: booleans one
//! byte, 64-bit integers eight bytes, identities 32 bytes, and optional
//! fields a one-byte presence flag before their payload.

use vstd::prelude::*;
use crate::ids::AccountId;

verus! {

/// The side of the price the creator is betting on at expiration.
#[derive(Clone, Copy, Debug, PartialEq, Eq, Structural)]
pub enum Direction {
    /// The creator wins if the settlement price is at or above the target.
    Above,
    /// The creator wins if the settlement price is at or below the target.
    Below,
}

/// The price band and deadline beyond which a bet may no longer be accepted
/// (distinct from creator-initiated cancellation).
#[derive(Clone, Copy, Debug, PartialEq, Eq, Structural)]
pub struct CancelCondition {
    /// Acceptance is refused once the current price falls below this floor.
    pub below_price: i64,
    /// Acceptance is refused once the current price rises above this ceiling.
    pub above_price: i64,
    /// Acceptance is refused after this time.
    pub time: i64,
}

/// Width in bytes of an encoded [`CancelCondition`].
pub const CANCEL_CONDITION_LEN: u64 = 24;

/// One open bet and its terms.  Created by the create transition, mutated
/// only by cancel (which sets `cancelled`), read by accept and finalize.
#[derive(Clone, Copy, Debug, PartialEq, Eq, Structural)]
pub struct Bet {
    /// Set once the record has been written; never cleared.
    pub is_initialized: bool,
    /// The market configuration this bet was opened under.
    pub betting_market: AccountId,
    /// The creator, whose signature authorized the bet.
    pub creator_main_account: AccountId,
    /// Where the creator's winnings or refund are paid.
    pub creator_payment_account: AccountId,
    /// The escrow custody account holding the creator's stake.
    pub bet_escrow_account: AccountId,
    /// Base odds, scaled by 100; 100 is break-even and the minimum.
    pub odds: i64,
    /// The creator's stake.
    pub bet_size: u64,
    /// The oracle product account this bet is priced against.
    pub pyth_oracle_product_account: AccountId,
    /// The oracle price account this bet is priced against.
    pub pyth_oracle_price_account: AccountId,
    /// When the bet expires and settlement becomes possible.
    pub expiration_time: i64,
    /// The side of the target price the creator bets on.
    pub bet_direction: Direction,
    /// The price the asset must be above or below at expiration.
    pub bet_price: i64,
    /// The oracle price sampled when the bet was created.
    pub start_price: i64,
    /// Price band and deadline for acceptance.
    pub cancel_condition: CancelCondition,
    /// If set, the price movement (in oracle units) that shifts the
    /// acceptance odds by one point.
    pub variable_odds: Option<i64>,
    /// Running total of stake taken by acceptors.
    pub total_amount_accepted: u64,
    /// Set once the creator cancels; never cleared.
    pub cancelled: bool,
}

/// Width in bytes of an encoded [`Bet`].
pub const BET_RECORD_LEN: u64 = 276;

/// Per-asset-class market configuration: payment mode, fee destination and
/// trusted oracle program.  Created once, read-only thereafter.
#[derive(Clone, Copy, Debug, PartialEq, Eq, Structural)]
pub struct BettingMarket {
    /// The market owner who provisioned the configuration.
    pub owner: AccountId,
    /// Where the protocol commission is paid at settlement.
    pub fee_commission_account: AccountId,
    /// True when stakes are paid in native units; false for a fungible asset.
    pub sol_payment: bool,
    /// The fungible asset's identity; required iff `sol_payment` is false.
    pub payment_mint: Option<AccountId>,
    /// The oracle program trusted to own this market's price accounts.
    pub pyth_program_id: AccountId,
}

/// Width in bytes of an encoded [`BettingMarket`].
pub const MARKET_RECORD_LEN: u64 = 130;

/// One accepting fill against a bet; independently created and finalized.
#[derive(Clone, Copy, Debug, PartialEq, Eq, Structural)]
pub struct AcceptedBet {
    /// The parent bet record (a back-reference, not custody).
    pub bet: AccountId,
    /// The escrow custody account holding both sides' stake for this fill.
    pub accepted_bet_escrow_account: AccountId,
    /// The acceptor, whose signature authorized the fill.
    pub acceptor_main_account: AccountId,
    /// Where the acceptor's winnings are paid.
    pub acceptor_payment_account: AccountId,
    /// The effective odds locked in at acceptance time.
    pub odds: i64,
    /// The portion of the creator's stake taken by this fill.
    pub bet_size: u64,
    /// Set once settled; the record is never mutated again.
    pub finalized: bool,
}

/// Width in bytes of an encoded [`AcceptedBet`].
pub const ACCEPTED_RECORD_LEN: u64 = 145;

/// A fungible-asset holding: the asset's identity, the transfer authority,
/// and the amount held.
#[derive(Clone, Copy, Debug, PartialEq, Eq, Structural)]
pub struct TokenAccount {
    /// The fungible asset held.
    pub mint: AccountId,
    /// Who may authorize transfers out of the account.
    pub authority: AccountId,
    /// Units held.
    pub amount: u64,
}

/// Width in bytes of a fungible-asset account's storage.
pub const TOKEN_ACCOUNT_LEN: u64 = 165;

/// What the protocol reads from an oracle product account: the schema
/// authenticity fields and the embedded reference to the price account.
#[derive(Clone, Copy, Debug, PartialEq, Eq, Structural)]
pub struct OracleProduct {
    /// Format tag that every account of the oracle schema carries.
    pub magic: u32,
    /// Schema version.
    pub ver: u32,
    /// Account-type tag; products carry [`ORACLE_PRODUCT_KIND`].
    pub atype: u32,
    /// The price account this product publishes through.
    pub px_acc: AccountId,
}

/// Width in bytes of an oracle product account's storage.
pub const ORACLE_PRODUCT_LEN: u64 = 512;

/// What the protocol reads from an oracle price account: the narrow
/// "current price plus confidence, as of now" query.
#[derive(Clone, Copy, Debug, PartialEq, Eq, Structural)]
pub struct OraclePrice {
    /// True when the oracle has a current aggregate to report.
    pub has_current: bool,
    /// The current price.
    pub price: i64,
    /// The confidence interval around the price.
    pub conf: u64,
}

/// Width in bytes of an oracle price account's storage.
pub const ORACLE_PRICE_LEN: u64 = 3312;

/// Format tag expected on every account of the oracle schema.
pub const ORACLE_MAGIC: u32 = 0xa1b2c3d4;

/// Schema version this protocol understands.
pub const ORACLE_VERSION: u32 = 2;

/// Account-type tag of a product account.
pub const ORACLE_PRODUCT_KIND: u32 = 2;

impl Bet {
    /// Invariant of every initialized bet record: odds at or above the
    /// break-even floor.
    pub open spec fn wf(self) -> bool {
        self.odds >= 100
    }

    /// The variable-odds divisor, if present, is usable: acceptance-time
    /// odds divide the observed price change by it.
    pub open spec fn divisor_ok(self) -> bool {
        match self.variable_odds {
            Some(v) => v != 0,
            None => true,
        }
    }
}

impl BettingMarket {
    /// Invariant: the payment-mode flag and the asset identity agree.
    pub open spec fn wf(self) -> bool {
        !self.sol_payment ==> self.payment_mint is Some
    }
}

} // verus!
