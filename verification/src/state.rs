//! The escrow data model: identities, token accounts, the offer record, and
//! the deterministic derivation of the vault's keyless authority.

use vstd::prelude::*;

verus! {

/// The byte tag "offer", packed little-endian into one word. It opens the
/// deterministic derivation of an offer record's address.
pub const OFFER_SEED_TAG: u64 = 0x72_6566_666f;

/// A 32-byte ledger identity (a party, a mint, or a derived authority),
/// held as four 64-bit words.
#[derive(Clone, Copy, PartialEq, Eq, Structural, Debug)]
pub struct Identity {
    pub w0: u64,
    pub w1: u64,
    pub w2: u64,
    pub w3: u64,
}

/// The address derived from the seed tag, an offer id, and the derivation
/// proof (the bump). No private key exists for it: whoever can reproduce the
/// derivation holds authority over accounts owned by it.
pub open spec fn spec_offer_address(id: u64, bump: u8) -> Identity {
    Identity { w0: OFFER_SEED_TAG, w1: id, w2: bump as u64, w3: OFFER_SEED_TAG }
}

/// Executable form of the derivation; reproducible by anyone from the same
/// inputs.
#[verifier::when_used_as_spec(spec_offer_address)]
pub fn offer_address(id: u64, bump: u8) -> (address: Identity)
    ensures
        address == spec_offer_address(id, bump),
{
    Identity { w0: OFFER_SEED_TAG, w1: id, w2: bump as u64, w3: OFFER_SEED_TAG }
}

/// One escrow's terms. Written once by Make, immutable until the record is
/// destroyed by exactly one of Take or Refund.
#[derive(Clone, Copy, PartialEq, Eq, Structural, Debug)]
pub struct Offer {
    /// Maker-chosen identifier; the record's key in the offer store.
    pub id: u64,
    /// The party that created the offer and deposited asset A.
    pub maker: Identity,
    /// Mint of the asset held in the vault.
    pub token_mint_a: Identity,
    /// Mint of the asset the maker wants in return.
    pub token_mint_b: Identity,
    /// How much of asset B fulfils the offer.
    pub token_b_wanted_amount: u64,
    /// Derivation proof completing the record's deterministic address.
    pub bump: u8,
}

/// A token holding-account: its owner is the only authority that can move
/// its balance, and every unit in it is of the one mint.
#[derive(Clone, Copy, PartialEq, Eq, Structural, Debug)]
pub struct TokenAccount {
    pub owner: Identity,
    pub mint: Identity,
    pub amount: u64,
}

/// The seeds that reproduce an offer's derived address. Presenting them
/// authorizes a transfer *as* that derived authority, the way funds leave a
/// vault without any private key signing.
#[derive(Clone, Copy, PartialEq, Eq, Structural, Debug)]
pub struct SignerSeeds {
    pub id: u64,
    pub bump: u8,
}

impl SignerSeeds {
    /// The address these seeds derive.
    pub open spec fn spec_address(self) -> Identity {
        spec_offer_address(self.id, self.bump)
    }
}

} // verus!
