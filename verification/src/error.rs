//! The error taxonomy. Every error is terminal for the invoking call: the
//! operation aborts with no partial effect and the code is surfaced verbatim.

use vstd::prelude::*;

verus! {

/// Why an escrow operation was refused.
#[derive(Clone, Copy, PartialEq, Eq, Structural, Debug)]
pub enum ErrorCode {
    /// Make was given a zero offered or wanted amount.
    InvalidAmount,
    /// Make was given the same mint for the offered and the wanted asset.
    InvalidTokenMint,
    /// Make's deposit into the vault failed.
    InsufficientMakerBalance,
    /// Take's payment of the wanted asset to the maker failed.
    InsufficientTakerBalance,
    /// Refund was invoked by an identity other than the stored maker.
    InvalidMaker,
    /// No offer record exists under the given id; a second Take or Refund
    /// after the record was destroyed fails this way.
    OfferNotFound,
    /// The asset-transfer primitive rejected a move.
    TransferFailed,
    /// An account could not be closed: balance not zero or authority invalid.
    CloseFailed,
    /// Refund's vault-to-maker transfer failed.
    FailedRefundTransfer,
    /// Refund could not close the vault.
    FailedRefundClosure,
}

} // verus!
