//! Account identities and the derived escrow authority.
//!
//! Every ledger account is named by a 32-byte identity, held here as four
//! 64-bit little-endian words.  Escrowed stake is controlled by a *derived
//! authority*: a stable identifier computed from a fixed namespace tag plus
//! the escrow account's own identity.  No private key exists for it, so only
//! the protocol can present it when instructing fund movement; it is a pure
//! function, not a cryptographic key.

use vstd::prelude::*;

verus! {

/// Namespace tag mixed into every derived escrow authority
/// (the bytes of the ASCII tag `"yoyobet"`, read as a little-endian word).
pub const AUTHORITY_TAG: u64 = 0x0074_6562_6f79_6f79;

/// A 32-byte ledger account identity, as four 64-bit little-endian words.
#[derive(Clone, Copy, Debug, PartialEq, Eq, Structural)]
pub struct AccountId {
    pub w0: u64,
    pub w1: u64,
    pub w2: u64,
    pub w3: u64,
}

/// The capability identifier that controls an escrow account: the namespace
/// tag folded into the escrow's own identity.
pub open spec fn derive_authority_spec(escrow: AccountId) -> AccountId {
    AccountId {
        w0: escrow.w0 ^ AUTHORITY_TAG,
        w1: escrow.w1 ^ AUTHORITY_TAG,
        w2: escrow.w2 ^ AUTHORITY_TAG,
        w3: escrow.w3 ^ AUTHORITY_TAG,
    }
}

impl AccountId {
    /// Builds an identity from its four little-endian words.
    pub fn new(w0: u64, w1: u64, w2: u64, w3: u64) -> (r: AccountId)
        ensures
            r == (AccountId { w0, w1, w2, w3 }),
    {
        AccountId { w0, w1, w2, w3 }
    }
}

/// Derives the authority identifier controlling `escrow`.
///
/// Custody presents this identifier as the signer when moving funds out of
/// an escrow account; holders of the escrow's identity alone cannot forge a
/// signature for it, so reassigning an escrow's authority to this value
/// hands control to the protocol.
pub fn derive_authority(escrow: &AccountId) -> (r: AccountId)
    ensures
        r == derive_authority_spec(*escrow),
{
    AccountId {
        w0: escrow.w0 ^ AUTHORITY_TAG,
        w1: escrow.w1 ^ AUTHORITY_TAG,
        w2: escrow.w2 ^ AUTHORITY_TAG,
        w3: escrow.w3 ^ AUTHORITY_TAG,
    }
}

} // verus!
