//! The shared transfer helpers: the two operations every instruction is
//! built from, a model of the ledger's asset-transfer and account-closure
//! primitives with their direct/derived authorization duality.

use vstd::prelude::*;

use crate::error::ErrorCode;
use crate::state::Identity;
use crate::state::SignerSeeds;
use crate::state::TokenAccount;

verus! {

/// Whether `authority` may move funds out of `from`. Without seeds the
/// authority must be the account's owner signing directly; with seeds it
/// must also be the address the seeds derive, so that presenting the
/// derivation stands in for a signature.
pub open spec fn authority_allows(
    from: TokenAccount,
    authority: Identity,
    signer_seeds: Option<SignerSeeds>,
) -> bool {
    match signer_seeds {
        None => authority == from.owner,
        Some(seeds) => authority == seeds.spec_address() && authority == from.owner,
    }
}

/// When the transfer primitive accepts a move: authorized, both accounts of
/// the stated mint, enough balance on the debit side, and room on the
/// credit side.
pub open spec fn transfer_allowed(
    amount: u64,
    from: TokenAccount,
    to: TokenAccount,
    mint: Identity,
    authority: Identity,
    signer_seeds: Option<SignerSeeds>,
) -> bool {
    &&& authority_allows(from, authority, signer_seeds)
    &&& from.mint == mint
    &&& to.mint == mint
    &&& amount <= from.amount
    &&& to.amount + amount <= u64::MAX
}

/// `account` after `amount` left it.
pub open spec fn debited(account: TokenAccount, amount: u64) -> TokenAccount {
    TokenAccount { amount: (account.amount - amount) as u64, ..account }
}

/// `account` after `amount` entered it.
pub open spec fn credited(account: TokenAccount, amount: u64) -> TokenAccount {
    TokenAccount { amount: (account.amount + amount) as u64, ..account }
}

/// Moves `amount` units of `mint` from `from` to `to`, authorized either by
/// the owner directly (no seeds) or by the derived authority the seeds
/// reproduce. Rejected moves leave both accounts untouched.
pub fn transfer_tokens(
    amount: u64,
    from: &mut TokenAccount,
    to: &mut TokenAccount,
    mint: Identity,
    authority: Identity,
    signer_seeds: Option<SignerSeeds>,
) -> (result: Result<(), ErrorCode>)
    ensures
        transfer_allowed(amount, *old(from), *old(to), mint, authority, signer_seeds) ==> {
            &&& result == Ok::<(), ErrorCode>(())
            &&& *final(from) == debited(*old(from), amount)
            &&& *final(to) == credited(*old(to), amount)
        },
        !transfer_allowed(amount, *old(from), *old(to), mint, authority, signer_seeds) ==> {
            &&& result == Err::<(), ErrorCode>(ErrorCode::TransferFailed)
            &&& *final(from) == *old(from)
            &&& *final(to) == *old(to)
        },
{
    let authorized = match signer_seeds {
        None => authority == from.owner,
        Some(seeds) => {
            let derived = crate::state::offer_address(seeds.id, seeds.bump);
            authority == derived && authority == from.owner
        },
    };
    if !authorized {
        return Err(ErrorCode::TransferFailed);
    }
    if from.mint != mint || to.mint != mint {
        return Err(ErrorCode::TransferFailed);
    }
    if amount > from.amount {
        return Err(ErrorCode::TransferFailed);
    }
    if amount > u64::MAX - to.amount {
        return Err(ErrorCode::TransferFailed);
    }
    from.amount = from.amount - amount;
    to.amount = to.amount + amount;
    Ok(())
}

/// When the closure primitive accepts: the balance is zero and the caller
/// holds authority over the account, directly or by derivation.
pub open spec fn close_allowed(
    account: TokenAccount,
    authority: Identity,
    signer_seeds: Option<SignerSeeds>,
) -> bool {
    authority_allows(account, authority, signer_seeds) && account.amount == 0
}

/// Releases a token account's storage, consuming it. The runtime then
/// returns the storage deposit to the rent recipient; that bookkeeping is
/// the runtime's and is not modelled here.
pub fn close_token_account(
    account: TokenAccount,
    authority: Identity,
    signer_seeds: Option<SignerSeeds>,
) -> (result: Result<(), ErrorCode>)
    ensures
        result == if close_allowed(account, authority, signer_seeds) {
            Ok::<(), ErrorCode>(())
        } else {
            Err::<(), ErrorCode>(ErrorCode::CloseFailed)
        },
{
    let authorized = match signer_seeds {
        None => authority == account.owner,
        Some(seeds) => {
            let derived = crate::state::offer_address(seeds.id, seeds.bump);
            authority == derived && authority == account.owner
        },
    };
    if authorized && account.amount == 0 {
        Ok(())
    } else {
        Err(ErrorCode::CloseFailed)
    }
}

} // verus!
