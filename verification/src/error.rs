//! Failure reasons reported by the bet protocol.
//!
//! Every operation either fully commits or reports exactly one of these
//! reasons; each maps to a stable numeric code that a submitting client can
//! map back to the symbolic reason.

use vstd::prelude::*;

verus! {

/// One failure reason per way a transition can be refused.
#[derive(Clone, Copy, Debug, PartialEq, Eq, Structural)]
pub enum BetError {
    /// The transition payload could not be decoded.
    InvalidInstruction,
    /// A required signature is missing.
    IncorrectSigner,
    /// A state account does not hold enough balance to be rent exempt.
    NotRentExempt,
    /// Escrow and payment accounts disagree on the fungible asset.
    InvalidMint,
    /// An account holds a different amount than expected.
    ExpectedAmountMismatch,
    /// An account is not authorized for the attempted use.
    UnauthorizedAccount,
    /// An account is owned by the wrong program or authority.
    IncorrectOwner,
    /// An account that must hold fungible tokens does not.
    IsNotTokenAccount,
    /// The record account was already written once.
    AccountAlreadyInitialized,
    /// A supplied account does not match the reference held by a record.
    InvalidAccounts,
    /// The supplied account is not a valid bet record.
    InvalidBetAccount,
    /// The supplied system or token program identity is wrong.
    InvalidSystemProgram,
    /// A credit would overflow the destination balance.
    AmountOverflow,
    /// A debit exceeds the source balance.
    AmountUnderflow,
    /// Account storage does not hold a record of the expected shape or size.
    DataTypeMismatch,
    /// The oracle price account has no usable current sample.
    InvalidPriceAccount,
    /// An expected account is missing from the supplied list.
    InvalidAccountInput,
    /// The oracle account pair fails the authenticity checks.
    InvalidOracleConfig,
    /// Non-native payment mode was selected without an asset identity.
    NoPaymentMintGiven,
    /// The bet can no longer be accepted (price band or deadline passed).
    BetNoLongerValid,
    /// Odds below the break-even floor of 100.
    InvalidOdds,
    /// The bet was cancelled by its creator.
    BetCancelled,
    /// The accepted bet was already settled.
    BetFinalized,
    /// Settlement attempted before the bet's expiration time.
    BeforeExpiryTime,
}

/// The stable numeric code of an error, in declaration order.
pub open spec fn error_code_spec(e: BetError) -> u32 {
    match e {
        BetError::InvalidInstruction => 0,
        BetError::IncorrectSigner => 1,
        BetError::NotRentExempt => 2,
        BetError::InvalidMint => 3,
        BetError::ExpectedAmountMismatch => 4,
        BetError::UnauthorizedAccount => 5,
        BetError::IncorrectOwner => 6,
        BetError::IsNotTokenAccount => 7,
        BetError::AccountAlreadyInitialized => 8,
        BetError::InvalidAccounts => 9,
        BetError::InvalidBetAccount => 10,
        BetError::InvalidSystemProgram => 11,
        BetError::AmountOverflow => 12,
        BetError::AmountUnderflow => 13,
        BetError::DataTypeMismatch => 14,
        BetError::InvalidPriceAccount => 15,
        BetError::InvalidAccountInput => 16,
        BetError::InvalidOracleConfig => 17,
        BetError::NoPaymentMintGiven => 18,
        BetError::BetNoLongerValid => 19,
        BetError::InvalidOdds => 20,
        BetError::BetCancelled => 21,
        BetError::BetFinalized => 22,
        BetError::BeforeExpiryTime => 23,
    }
}

/// The human-readable diagnostic attached to an error.
pub open spec fn description_spec(e: BetError) -> Seq<char> {
    match e {
        BetError::InvalidInstruction => "Invalid Instruction"@,
        BetError::IncorrectSigner => "Incorrect signer"@,
        BetError::NotRentExempt => "State account not rent exempt"@,
        BetError::InvalidMint => "Invalid mint"@,
        BetError::ExpectedAmountMismatch => "Expected amount mismatch"@,
        BetError::UnauthorizedAccount => "Unauthorized account"@,
        BetError::IncorrectOwner => "Incorrect account owner"@,
        BetError::IsNotTokenAccount => "Account is not token account"@,
        BetError::AccountAlreadyInitialized => "Account already initialized"@,
        BetError::InvalidAccounts => "Invalid accounts"@,
        BetError::InvalidBetAccount => "Invalid bet account"@,
        BetError::InvalidSystemProgram => "Invalid system program"@,
        BetError::AmountOverflow => "Amount overflow transferring lamports"@,
        BetError::AmountUnderflow => "Amount underflow transferring lamports"@,
        BetError::DataTypeMismatch => "Data type mismatch"@,
        BetError::InvalidPriceAccount => "Invalid price account"@,
        BetError::InvalidAccountInput => "Invalid account input"@,
        BetError::InvalidOracleConfig => "Invalid oracle config"@,
        BetError::NoPaymentMintGiven => "No payment mint given"@,
        BetError::BetNoLongerValid => "Bet no longer valid"@,
        BetError::InvalidOdds => "Invalid odds"@,
        BetError::BetCancelled => "Bet cancelled"@,
        BetError::BetFinalized => "Bet already finalized"@,
        BetError::BeforeExpiryTime => "Before expiry time"@,
    }
}

impl BetError {
    /// The stable numeric code surfaced to clients.
    pub fn error_code(&self) -> (r: u32)
        ensures
            r == error_code_spec(*self),
    {
        match self {
            BetError::InvalidInstruction => 0,
            BetError::IncorrectSigner => 1,
            BetError::NotRentExempt => 2,
            BetError::InvalidMint => 3,
            BetError::ExpectedAmountMismatch => 4,
            BetError::UnauthorizedAccount => 5,
            BetError::IncorrectOwner => 6,
            BetError::IsNotTokenAccount => 7,
            BetError::AccountAlreadyInitialized => 8,
            BetError::InvalidAccounts => 9,
            BetError::InvalidBetAccount => 10,
            BetError::InvalidSystemProgram => 11,
            BetError::AmountOverflow => 12,
            BetError::AmountUnderflow => 13,
            BetError::DataTypeMismatch => 14,
            BetError::InvalidPriceAccount => 15,
            BetError::InvalidAccountInput => 16,
            BetError::InvalidOracleConfig => 17,
            BetError::NoPaymentMintGiven => 18,
            BetError::BetNoLongerValid => 19,
            BetError::InvalidOdds => 20,
            BetError::BetCancelled => 21,
            BetError::BetFinalized => 22,
            BetError::BeforeExpiryTime => 23,
        }
    }

    /// The human-readable diagnostic attached to the error.
    pub fn description(&self) -> (r: &'static str)
        ensures
            r@ == description_spec(*self),
    {
        match self {
            BetError::InvalidInstruction => "Invalid Instruction",
            BetError::IncorrectSigner => "Incorrect signer",
            BetError::NotRentExempt => "State account not rent exempt",
            BetError::InvalidMint => "Invalid mint",
            BetError::ExpectedAmountMismatch => "Expected amount mismatch",
            BetError::UnauthorizedAccount => "Unauthorized account",
            BetError::IncorrectOwner => "Incorrect account owner",
            BetError::IsNotTokenAccount => "Account is not token account",
            BetError::AccountAlreadyInitialized => "Account already initialized",
            BetError::InvalidAccounts => "Invalid accounts",
            BetError::InvalidBetAccount => "Invalid bet account",
            BetError::InvalidSystemProgram => "Invalid system program",
            BetError::AmountOverflow => "Amount overflow transferring lamports",
            BetError::AmountUnderflow => "Amount underflow transferring lamports",
            BetError::DataTypeMismatch => "Data type mismatch",
            BetError::InvalidPriceAccount => "Invalid price account",
            BetError::InvalidAccountInput => "Invalid account input",
            BetError::InvalidOracleConfig => "Invalid oracle config",
            BetError::NoPaymentMintGiven => "No payment mint given",
            BetError::BetNoLongerValid => "Bet no longer valid",
            BetError::InvalidOdds => "Invalid odds",
            BetError::BetCancelled => "Bet cancelled",
            BetError::BetFinalized => "Bet already finalized",
            BetError::BeforeExpiryTime => "Before expiry time",
        }
    }
}

} // verus!
