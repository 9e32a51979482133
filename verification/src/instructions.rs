//! The three instructions of the offer lifecycle: Make creates the offer
//! record and its vault and deposits the offered asset; Take settles the
//! swap and destroys both; Refund returns the deposit to the maker and
//! destroys both. Each handler's contract equates its whole effect with a
//! spec-level transition, so exactly what changes, and on which inputs each
//! error comes, is pinned down.
//!
//! The handlers stage every balance change on local copies and commit only
//! once nothing can fail any more, so a refused operation leaves the store
//! and every account exactly as it found them, the all-or-nothing behaviour
//! the surrounding runtime guarantees on a ledger.

use vstd::prelude::*;

use crate::error::ErrorCode;
use crate::shared::close_token_account;
use crate::shared::credited;
use crate::shared::debited;
use crate::shared::transfer_tokens;
use crate::state::offer_address;
use crate::state::spec_offer_address;
use crate::state::Identity;
use crate::state::Offer;
use crate::state::SignerSeeds;
use crate::state::TokenAccount;
use crate::store::OfferEntry;
use crate::store::OfferStore;

verus! {

/// The accounts Make works on: the maker (an authenticated signer), the two
/// mints, and the maker's asset-A holding account.
#[derive(Clone, Copy, PartialEq, Eq, Structural, Debug)]
pub struct MakeOffer {
    pub maker: Identity,
    pub token_mint_a: Identity,
    pub token_mint_b: Identity,
    pub maker_token_account_a: TokenAccount,
}

/// The accounts Take works on: the taker (an authenticated signer), the
/// taker's holding accounts for both assets, and the maker's asset-B
/// holding account.
#[derive(Clone, Copy, PartialEq, Eq, Structural, Debug)]
pub struct TakeOffer {
    pub taker: Identity,
    pub taker_token_account_a: TokenAccount,
    pub taker_token_account_b: TokenAccount,
    pub maker_token_account_b: TokenAccount,
}

/// The accounts Refund works on: the signer claiming to be the maker and
/// the asset-A holding account the deposit returns to.
#[derive(Clone, Copy, PartialEq, Eq, Structural, Debug)]
pub struct RefundOffer {
    pub maker: Identity,
    pub maker_token_account_a: TokenAccount,
}

/// An entry as Make writes it: the vault holds each of its offer's id as
/// key, is of the offered mint, owned by the offer's derived address, and
/// never outlives the offer. Every entry in a store that only the three
/// instructions have touched satisfies this.
pub open spec fn entry_well_formed(id: u64, entry: OfferEntry) -> bool {
    &&& entry.offer.id == id
    &&& entry.vault.owner == spec_offer_address(entry.offer.id, entry.offer.bump)
    &&& entry.vault.mint == entry.offer.token_mint_a
}

/// Every record in the store is bound to its vault as Make created them.
pub open spec fn store_well_formed(m: Map<u64, OfferEntry>) -> bool {
    forall|id: u64| #[trigger] m.contains_key(id) ==> entry_well_formed(id, m[id])
}

/// The offer record Make writes.
pub open spec fn made_offer(
    accounts: MakeOffer,
    id: u64,
    token_b_wanted_amount: u64,
    bump: u8,
) -> Offer {
    Offer {
        id,
        maker: accounts.maker,
        token_mint_a: accounts.token_mint_a,
        token_mint_b: accounts.token_mint_b,
        token_b_wanted_amount,
        bump,
    }
}

/// The vault Make creates: owned by the offer's derived address, of the
/// offered mint, holding the deposited amount.
pub open spec fn made_vault(accounts: MakeOffer, id: u64, amount: u64, bump: u8) -> TokenAccount {
    TokenAccount {
        owner: spec_offer_address(id, bump),
        mint: accounts.token_mint_a,
        amount,
    }
}

/// Make as a transition: the store and the accounts after the call,
/// and the result. A zero amount is refused first, then equal mints, then a
/// deposit the maker cannot cover; otherwise the record and vault appear
/// under `id` and the deposit leaves the maker's account.
pub open spec fn make_offer_spec(
    m: Map<u64, OfferEntry>,
    accounts: MakeOffer,
    id: u64,
    token_a_offered_amount: u64,
    token_b_wanted_amount: u64,
    bump: u8,
) -> (Map<u64, OfferEntry>, MakeOffer, Result<(), ErrorCode>) {
    if token_a_offered_amount == 0 || token_b_wanted_amount == 0 {
        (m, accounts, Err(ErrorCode::InvalidAmount))
    } else if accounts.token_mint_a == accounts.token_mint_b {
        (m, accounts, Err(ErrorCode::InvalidTokenMint))
    } else if accounts.maker_token_account_a.amount < token_a_offered_amount {
        (m, accounts, Err(ErrorCode::InsufficientMakerBalance))
    } else {
        let entry = OfferEntry {
            offer: made_offer(accounts, id, token_b_wanted_amount, bump),
            vault: made_vault(accounts, id, token_a_offered_amount, bump),
        };
        let after = MakeOffer {
            maker_token_account_a: debited(accounts.maker_token_account_a, token_a_offered_amount),
            ..accounts
        };
        (m.insert(id, entry), after, Ok(()))
    }
}

/// Creates the offer record and the vault and moves the offered amount from
/// the maker's account into the vault, authorized directly by the maker;
/// all of it or none of it.
pub fn make_offer(
    store: &mut OfferStore,
    accounts: &mut MakeOffer,
    id: u64,
    token_a_offered_amount: u64,
    token_b_wanted_amount: u64,
    bump: u8,
) -> (result: Result<(), ErrorCode>)
    requires
        !old(store)@.contains_key(id),
        old(accounts).maker_token_account_a.owner == old(accounts).maker,
        old(accounts).maker_token_account_a.mint == old(accounts).token_mint_a,
    ensures
        ({
            let (m, a, r) = make_offer_spec(
                old(store)@,
                *old(accounts),
                id,
                token_a_offered_amount,
                token_b_wanted_amount,
                bump,
            );
            final(store)@ == m && *final(accounts) == a && result == r
        }),
{
    if token_a_offered_amount == 0 || token_b_wanted_amount == 0 {
        return Err(ErrorCode::InvalidAmount);
    }
    if accounts.token_mint_a == accounts.token_mint_b {
        return Err(ErrorCode::InvalidTokenMint);
    }
    let mut maker_account_a = accounts.maker_token_account_a;
    let mut vault = TokenAccount {
        owner: offer_address(id, bump),
        mint: accounts.token_mint_a,
        amount: 0,
    };
    let moved = transfer_tokens(
        token_a_offered_amount,
        &mut maker_account_a,
        &mut vault,
        accounts.token_mint_a,
        accounts.maker,
        None,
    );
    match moved {
        Ok(()) => {},
        Err(_) => {
            return Err(ErrorCode::InsufficientMakerBalance);
        },
    }
    let offer = Offer {
        id,
        maker: accounts.maker,
        token_mint_a: accounts.token_mint_a,
        token_mint_b: accounts.token_mint_b,
        token_b_wanted_amount,
        bump,
    };
    store.create(OfferEntry { offer, vault });
    accounts.maker_token_account_a = maker_account_a;
    Ok(())
}

/// Take as a transition. A missing record fails as not found; a taker who
/// cannot pay the wanted amount to the maker fails that payment; only then
/// can releasing the vault fail. On success the wanted amount moves from
/// the taker to the maker, the whole vault balance moves to the taker, and
/// the record is destroyed.
pub open spec fn take_offer_spec(
    m: Map<u64, OfferEntry>,
    accounts: TakeOffer,
    id: u64,
) -> (Map<u64, OfferEntry>, TakeOffer, Result<(), ErrorCode>) {
    if !m.contains_key(id) {
        (m, accounts, Err(ErrorCode::OfferNotFound))
    } else {
        let entry = m[id];
        let wanted = entry.offer.token_b_wanted_amount;
        if accounts.taker_token_account_b.amount < wanted {
            (m, accounts, Err(ErrorCode::InsufficientTakerBalance))
        } else if accounts.maker_token_account_b.amount + wanted > u64::MAX {
            (m, accounts, Err(ErrorCode::InsufficientTakerBalance))
        } else if accounts.taker_token_account_a.amount + entry.vault.amount > u64::MAX {
            (m, accounts, Err(ErrorCode::TransferFailed))
        } else {
            let after = TakeOffer {
                taker_token_account_a: credited(accounts.taker_token_account_a, entry.vault.amount),
                taker_token_account_b: debited(accounts.taker_token_account_b, wanted),
                maker_token_account_b: credited(accounts.maker_token_account_b, wanted),
                ..accounts
            };
            (m.remove(id), after, Ok(()))
        }
    }
}

/// Fulfils the offer under `id`: pays the wanted amount of asset B from the
/// taker to the maker, releases the vault's whole balance to the taker
/// under the offer's derived authority, closes the vault and destroys the
/// record; all of it or none of it.
pub fn take_offer(store: &mut OfferStore, accounts: &mut TakeOffer, id: u64) -> (result: Result<
    (),
    ErrorCode,
>)
    requires
        store_well_formed(old(store)@),
        old(accounts).taker_token_account_a.owner == old(accounts).taker,
        old(accounts).taker_token_account_b.owner == old(accounts).taker,
        old(store)@.contains_key(id) ==> {
            let offer = old(store)@[id].offer;
            &&& old(accounts).taker_token_account_a.mint == offer.token_mint_a
            &&& old(accounts).taker_token_account_b.mint == offer.token_mint_b
            &&& old(accounts).maker_token_account_b.owner == offer.maker
            &&& old(accounts).maker_token_account_b.mint == offer.token_mint_b
        },
    ensures
        ({
            let (m, a, r) = take_offer_spec(old(store)@, *old(accounts), id);
            final(store)@ == m && *final(accounts) == a && result == r
        }),
{
    let entry = match store.get(id) {
        Some(entry) => entry,
        None => {
            return Err(ErrorCode::OfferNotFound);
        },
    };
    let wanted = entry.offer.token_b_wanted_amount;
    let mut taker_account_b = accounts.taker_token_account_b;
    let mut maker_account_b = accounts.maker_token_account_b;
    let paid = transfer_tokens(
        wanted,
        &mut taker_account_b,
        &mut maker_account_b,
        entry.offer.token_mint_b,
        accounts.taker,
        None,
    );
    match paid {
        Ok(()) => {},
        Err(_) => {
            return Err(ErrorCode::InsufficientTakerBalance);
        },
    }
    let seeds = SignerSeeds { id: entry.offer.id, bump: entry.offer.bump };
    let derived = offer_address(seeds.id, seeds.bump);
    let mut vault = entry.vault;
    let mut taker_account_a = accounts.taker_token_account_a;
    let vault_amount = vault.amount;
    let released = transfer_tokens(
        vault_amount,
        &mut vault,
        &mut taker_account_a,
        entry.offer.token_mint_a,
        derived,
        Some(seeds),
    );
    match released {
        Ok(()) => {},
        Err(_) => {
            return Err(ErrorCode::TransferFailed);
        },
    }
    // The vault was just drained under its own authority, so closure
    // cannot be refused; the error arm is proved unreachable.
    match close_token_account(vault, derived, Some(seeds)) {
        Ok(()) => {},
        Err(_) => {
            return Err(ErrorCode::CloseFailed);
        },
    }
    let _ = store.delete(id);
    accounts.taker_token_account_a = taker_account_a;
    accounts.taker_token_account_b = taker_account_b;
    accounts.maker_token_account_b = maker_account_b;
    Ok(())
}

/// Refund as a transition. A missing record fails as not found; a signer
/// other than the stored maker is refused before anything moves; only then
/// can the return transfer fail. On success the vault's whole balance
/// returns to the maker and the record is destroyed.
pub open spec fn refund_offer_spec(
    m: Map<u64, OfferEntry>,
    accounts: RefundOffer,
    id: u64,
) -> (Map<u64, OfferEntry>, RefundOffer, Result<(), ErrorCode>) {
    if !m.contains_key(id) {
        (m, accounts, Err(ErrorCode::OfferNotFound))
    } else {
        let entry = m[id];
        if accounts.maker != entry.offer.maker {
            (m, accounts, Err(ErrorCode::InvalidMaker))
        } else if accounts.maker_token_account_a.amount + entry.vault.amount > u64::MAX {
            (m, accounts, Err(ErrorCode::FailedRefundTransfer))
        } else {
            let after = RefundOffer {
                maker_token_account_a: credited(
                    accounts.maker_token_account_a,
                    entry.vault.amount,
                ),
                ..accounts
            };
            (m.remove(id), after, Ok(()))
        }
    }
}

/// Cancels the offer under `id`: only for its maker. Returns the vault's
/// whole balance to the maker under the offer's derived authority, closes
/// the vault and destroys the record; all of it or none of it.
pub fn refund_offer(store: &mut OfferStore, accounts: &mut RefundOffer, id: u64) -> (result: Result<
    (),
    ErrorCode,
>)
    requires
        store_well_formed(old(store)@),
        old(accounts).maker_token_account_a.owner == old(accounts).maker,
        old(store)@.contains_key(id) ==> old(accounts).maker_token_account_a.mint == old(
            store,
        )@[id].offer.token_mint_a,
    ensures
        ({
            let (m, a, r) = refund_offer_spec(old(store)@, *old(accounts), id);
            final(store)@ == m && *final(accounts) == a && result == r
        }),
{
    let entry = match store.get(id) {
        Some(entry) => entry,
        None => {
            return Err(ErrorCode::OfferNotFound);
        },
    };
    if accounts.maker != entry.offer.maker {
        return Err(ErrorCode::InvalidMaker);
    }
    let seeds = SignerSeeds { id: entry.offer.id, bump: entry.offer.bump };
    let derived = offer_address(seeds.id, seeds.bump);
    let mut vault = entry.vault;
    let mut maker_account_a = accounts.maker_token_account_a;
    let vault_amount = vault.amount;
    let returned = transfer_tokens(
        vault_amount,
        &mut vault,
        &mut maker_account_a,
        entry.offer.token_mint_a,
        derived,
        Some(seeds),
    );
    match returned {
        Ok(()) => {},
        Err(_) => {
            return Err(ErrorCode::FailedRefundTransfer);
        },
    }
    // The vault was just drained under its own authority, so closure
    // cannot be refused; the error arm is proved unreachable.
    match close_token_account(vault, derived, Some(seeds)) {
        Ok(()) => {},
        Err(_) => {
            return Err(ErrorCode::FailedRefundClosure);
        },
    }
    let _ = store.delete(id);
    accounts.maker_token_account_a = maker_account_a;
    Ok(())
}

} // verus!
