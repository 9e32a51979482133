//! Laws of the offer lifecycle, proved over the spec transitions that the
//! instruction handlers' contracts are stated with.

use vstd::prelude::*;

use crate::error::ErrorCode;
use crate::instructions::entry_well_formed;
use crate::instructions::made_offer;
use crate::instructions::make_offer_spec;
use crate::instructions::refund_offer_spec;
use crate::instructions::store_well_formed;
use crate::instructions::take_offer_spec;
use crate::instructions::MakeOffer;
use crate::instructions::RefundOffer;
use crate::instructions::TakeOffer;
use crate::state::spec_offer_address;
use crate::store::OfferEntry;

verus! {

/// Distinct derivation inputs give distinct derived addresses: each offer's
/// authority is bound to that offer alone.
pub proof fn lemma_offer_address_injective(id1: u64, bump1: u8, id2: u64, bump2: u8)
    ensures
        spec_offer_address(id1, bump1) == spec_offer_address(id2, bump2) ==> id1 == id2 && bump1
            == bump2,
{
}

/// On any inputs with both amounts positive, distinct mints, and a maker
/// account that covers the deposit, Make succeeds: the record carries
/// exactly the fields supplied, the vault holds exactly the offered amount,
/// and exactly that amount left the maker's account.
pub proof fn lemma_make_offer_succeeds(
    m: Map<u64, OfferEntry>,
    accounts: MakeOffer,
    id: u64,
    token_a_offered_amount: u64,
    token_b_wanted_amount: u64,
    bump: u8,
)
    requires
        token_a_offered_amount > 0,
        token_b_wanted_amount > 0,
        accounts.token_mint_a != accounts.token_mint_b,
        accounts.maker_token_account_a.amount >= token_a_offered_amount,
    ensures
        ({
            let (m1, a1, r1) = make_offer_spec(
                m,
                accounts,
                id,
                token_a_offered_amount,
                token_b_wanted_amount,
                bump,
            );
            &&& r1 == Ok::<(), ErrorCode>(())
            &&& m1.contains_key(id)
            &&& m1[id].offer == made_offer(accounts, id, token_b_wanted_amount, bump)
            &&& m1[id].vault.amount == token_a_offered_amount
            &&& m1[id].vault.mint == accounts.token_mint_a
            &&& a1.maker_token_account_a.amount == accounts.maker_token_account_a.amount
                - token_a_offered_amount
        }),
{
}

/// Make with either amount zero fails with `InvalidAmount` and creates
/// neither the record nor the vault: nothing changes at all.
pub proof fn lemma_make_offer_rejects_zero_amount(
    m: Map<u64, OfferEntry>,
    accounts: MakeOffer,
    id: u64,
    token_a_offered_amount: u64,
    token_b_wanted_amount: u64,
    bump: u8,
)
    requires
        !m.contains_key(id),
        token_a_offered_amount == 0 || token_b_wanted_amount == 0,
    ensures
        ({
            let (m1, a1, r1) = make_offer_spec(
                m,
                accounts,
                id,
                token_a_offered_amount,
                token_b_wanted_amount,
                bump,
            );
            &&& r1 == Err::<(), ErrorCode>(ErrorCode::InvalidAmount)
            &&& m1 == m
            &&& !m1.contains_key(id)
            &&& a1 == accounts
        }),
{
}

/// Make with the offered and wanted mint equal (and amounts that pass the
/// earlier check) fails with `InvalidTokenMint`, and nothing changes.
pub proof fn lemma_make_offer_rejects_matching_mints(
    m: Map<u64, OfferEntry>,
    accounts: MakeOffer,
    id: u64,
    token_a_offered_amount: u64,
    token_b_wanted_amount: u64,
    bump: u8,
)
    requires
        !m.contains_key(id),
        token_a_offered_amount > 0,
        token_b_wanted_amount > 0,
        accounts.token_mint_a == accounts.token_mint_b,
    ensures
        ({
            let (m1, a1, r1) = make_offer_spec(
                m,
                accounts,
                id,
                token_a_offered_amount,
                token_b_wanted_amount,
                bump,
            );
            &&& r1 == Err::<(), ErrorCode>(ErrorCode::InvalidTokenMint)
            &&& m1 == m
            &&& !m1.contains_key(id)
            &&& a1 == accounts
        }),
{
}

/// Refund invoked by any identity other than the stored maker fails with
/// `InvalidMaker` before anything moves: store and account are unchanged.
pub proof fn lemma_refund_offer_requires_maker(
    m: Map<u64, OfferEntry>,
    accounts: RefundOffer,
    id: u64,
)
    requires
        m.contains_key(id),
        accounts.maker != m[id].offer.maker,
    ensures
        ({
            let (m1, a1, r1) = refund_offer_spec(m, accounts, id);
            &&& r1 == Err::<(), ErrorCode>(ErrorCode::InvalidMaker)
            &&& m1 == m
            &&& a1 == accounts
        }),
{
}

/// Make followed at once by the maker's Refund is a round trip: both
/// succeed, the maker's asset-A account returns to exactly its value
/// before Make, and the store returns to exactly its prior contents. No
/// asset-B account is involved in either step.
pub proof fn lemma_make_then_refund_round_trip(
    m: Map<u64, OfferEntry>,
    accounts: MakeOffer,
    id: u64,
    token_a_offered_amount: u64,
    token_b_wanted_amount: u64,
    bump: u8,
)
    requires
        !m.contains_key(id),
        token_a_offered_amount > 0,
        token_b_wanted_amount > 0,
        accounts.token_mint_a != accounts.token_mint_b,
        accounts.maker_token_account_a.amount >= token_a_offered_amount,
    ensures
        ({
            let (m1, a1, r1) = make_offer_spec(
                m,
                accounts,
                id,
                token_a_offered_amount,
                token_b_wanted_amount,
                bump,
            );
            let refund_accounts = RefundOffer {
                maker: accounts.maker,
                maker_token_account_a: a1.maker_token_account_a,
            };
            let (m2, a2, r2) = refund_offer_spec(m1, refund_accounts, id);
            &&& r1 == Ok::<(), ErrorCode>(())
            &&& r2 == Ok::<(), ErrorCode>(())
            &&& a2.maker_token_account_a == accounts.maker_token_account_a
            &&& m2 == m
        }),
{
    let (m1, a1, r1) = make_offer_spec(
        m,
        accounts,
        id,
        token_a_offered_amount,
        token_b_wanted_amount,
        bump,
    );
    assert(m1.remove(id) =~= m);
}

/// Make followed by a Take that the taker can pay settles the swap: the
/// taker's asset-A account gains exactly the deposited amount, the taker's
/// asset-B account loses exactly the wanted amount, the maker's asset-B
/// account gains exactly the wanted amount, and the store returns to its
/// prior contents.
pub proof fn lemma_make_then_take(
    m: Map<u64, OfferEntry>,
    accounts: MakeOffer,
    id: u64,
    token_a_offered_amount: u64,
    token_b_wanted_amount: u64,
    bump: u8,
    take_accounts: TakeOffer,
)
    requires
        !m.contains_key(id),
        token_a_offered_amount > 0,
        token_b_wanted_amount > 0,
        accounts.token_mint_a != accounts.token_mint_b,
        accounts.maker_token_account_a.amount >= token_a_offered_amount,
        take_accounts.taker_token_account_b.amount >= token_b_wanted_amount,
        take_accounts.maker_token_account_b.amount + token_b_wanted_amount <= u64::MAX,
        take_accounts.taker_token_account_a.amount + token_a_offered_amount <= u64::MAX,
    ensures
        ({
            let (m1, a1, r1) = make_offer_spec(
                m,
                accounts,
                id,
                token_a_offered_amount,
                token_b_wanted_amount,
                bump,
            );
            let (m2, t2, r2) = take_offer_spec(m1, take_accounts, id);
            &&& r1 == Ok::<(), ErrorCode>(())
            &&& r2 == Ok::<(), ErrorCode>(())
            &&& t2.taker_token_account_a.amount == take_accounts.taker_token_account_a.amount
                + token_a_offered_amount
            &&& t2.taker_token_account_b.amount == take_accounts.taker_token_account_b.amount
                - token_b_wanted_amount
            &&& t2.maker_token_account_b.amount == take_accounts.maker_token_account_b.amount
                + token_b_wanted_amount
            &&& m2 == m
        }),
{
    let (m1, a1, r1) = make_offer_spec(
        m,
        accounts,
        id,
        token_a_offered_amount,
        token_b_wanted_amount,
        bump,
    );
    assert(m1.remove(id) =~= m);
}

/// A successful Take destroys the record: any later Take or Refund of the
/// same id, with whatever accounts, fails as not found and changes nothing.
pub proof fn lemma_take_offer_exclusive(
    m: Map<u64, OfferEntry>,
    accounts: TakeOffer,
    id: u64,
    again: TakeOffer,
    cancel: RefundOffer,
)
    requires
        take_offer_spec(m, accounts, id).2 is Ok,
    ensures
        ({
            let m1 = take_offer_spec(m, accounts, id).0;
            &&& !m1.contains_key(id)
            &&& take_offer_spec(m1, again, id) == (m1, again, Err::<(), ErrorCode>(
                ErrorCode::OfferNotFound,
            ))
            &&& refund_offer_spec(m1, cancel, id) == (m1, cancel, Err::<(), ErrorCode>(
                ErrorCode::OfferNotFound,
            ))
        }),
{
}

/// A successful Refund destroys the record just as finally: any later Take
/// or Refund of the same id fails as not found and changes nothing.
pub proof fn lemma_refund_offer_exclusive(
    m: Map<u64, OfferEntry>,
    accounts: RefundOffer,
    id: u64,
    again: TakeOffer,
    cancel: RefundOffer,
)
    requires
        refund_offer_spec(m, accounts, id).2 is Ok,
    ensures
        ({
            let m1 = refund_offer_spec(m, accounts, id).0;
            &&& !m1.contains_key(id)
            &&& take_offer_spec(m1, again, id) == (m1, again, Err::<(), ErrorCode>(
                ErrorCode::OfferNotFound,
            ))
            &&& refund_offer_spec(m1, cancel, id) == (m1, cancel, Err::<(), ErrorCode>(
                ErrorCode::OfferNotFound,
            ))
        }),
{
}

/// Make strands and duplicates nothing: on success, every unit that left
/// the maker's asset-A account is in the new vault, and the vault holds
/// nothing else.
pub proof fn lemma_make_offer_conserves_asset_a(
    m: Map<u64, OfferEntry>,
    accounts: MakeOffer,
    id: u64,
    token_a_offered_amount: u64,
    token_b_wanted_amount: u64,
    bump: u8,
)
    requires
        make_offer_spec(m, accounts, id, token_a_offered_amount, token_b_wanted_amount, bump).2
            is Ok,
    ensures
        ({
            let (m1, a1, r1) = make_offer_spec(
                m,
                accounts,
                id,
                token_a_offered_amount,
                token_b_wanted_amount,
                bump,
            );
            a1.maker_token_account_a.amount + m1[id].vault.amount
                == accounts.maker_token_account_a.amount
        }),
{
}

/// Take strands and duplicates nothing: on success, the taker's asset-A
/// account gains exactly the vault's whole balance, and the two asset-B
/// accounts hold together exactly what they held before.
pub proof fn lemma_take_offer_conserves_assets(
    m: Map<u64, OfferEntry>,
    accounts: TakeOffer,
    id: u64,
)
    requires
        take_offer_spec(m, accounts, id).2 is Ok,
    ensures
        ({
            let (m1, a1, r1) = take_offer_spec(m, accounts, id);
            &&& a1.taker_token_account_a.amount == accounts.taker_token_account_a.amount
                + m[id].vault.amount
            &&& a1.taker_token_account_b.amount + a1.maker_token_account_b.amount
                == accounts.taker_token_account_b.amount + accounts.maker_token_account_b.amount
        }),
{
}

/// Refund strands and duplicates nothing: on success, the maker's asset-A
/// account gains exactly the vault's whole balance.
pub proof fn lemma_refund_offer_conserves_asset_a(
    m: Map<u64, OfferEntry>,
    accounts: RefundOffer,
    id: u64,
)
    requires
        refund_offer_spec(m, accounts, id).2 is Ok,
    ensures
        ({
            let (m1, a1, r1) = refund_offer_spec(m, accounts, id);
            a1.maker_token_account_a.amount == accounts.maker_token_account_a.amount
                + m[id].vault.amount
        }),
{
}

/// Offers are independent: an operation under one id neither reads nor
/// writes the record or the vault of any other id.
pub proof fn lemma_other_offers_untouched(
    m: Map<u64, OfferEntry>,
    id: u64,
    other_id: u64,
    make_accounts: MakeOffer,
    token_a_offered_amount: u64,
    token_b_wanted_amount: u64,
    bump: u8,
    take_accounts: TakeOffer,
    refund_accounts: RefundOffer,
)
    requires
        m.contains_key(id),
        id != other_id,
    ensures
        ({
            let made = make_offer_spec(
                m,
                make_accounts,
                other_id,
                token_a_offered_amount,
                token_b_wanted_amount,
                bump,
            ).0;
            made.contains_key(id) && made[id] == m[id]
        }),
        ({
            let taken = take_offer_spec(m, take_accounts, other_id).0;
            taken.contains_key(id) && taken[id] == m[id]
        }),
        ({
            let refunded = refund_offer_spec(m, refund_accounts, other_id).0;
            refunded.contains_key(id) && refunded[id] == m[id]
        }),
{
}

/// Make keeps the store well formed: the entry it writes binds the new
/// vault to the new record, and every other entry is untouched.
pub proof fn lemma_make_offer_preserves_well_formed(
    m: Map<u64, OfferEntry>,
    accounts: MakeOffer,
    id: u64,
    token_a_offered_amount: u64,
    token_b_wanted_amount: u64,
    bump: u8,
)
    requires
        store_well_formed(m),
    ensures
        store_well_formed(
            make_offer_spec(m, accounts, id, token_a_offered_amount, token_b_wanted_amount, bump).0,
        ),
{
    let m1 = make_offer_spec(
        m,
        accounts,
        id,
        token_a_offered_amount,
        token_b_wanted_amount,
        bump,
    ).0;
    assert forall|k: u64| #[trigger] m1.contains_key(k) implies entry_well_formed(k, m1[k]) by {
        if k != id {
            assert(m.contains_key(k));
        }
    }
}

/// Take keeps the store well formed: it only removes an entry.
pub proof fn lemma_take_offer_preserves_well_formed(
    m: Map<u64, OfferEntry>,
    accounts: TakeOffer,
    id: u64,
)
    requires
        store_well_formed(m),
    ensures
        store_well_formed(take_offer_spec(m, accounts, id).0),
{
    let m1 = take_offer_spec(m, accounts, id).0;
    assert forall|k: u64| #[trigger] m1.contains_key(k) implies entry_well_formed(k, m1[k]) by {
        assert(m.contains_key(k));
    }
}

/// Refund keeps the store well formed: it only removes an entry.
pub proof fn lemma_refund_offer_preserves_well_formed(
    m: Map<u64, OfferEntry>,
    accounts: RefundOffer,
    id: u64,
)
    requires
        store_well_formed(m),
    ensures
        store_well_formed(refund_offer_spec(m, accounts, id).0),
{
    let m1 = refund_offer_spec(m, accounts, id).0;
    assert forall|k: u64| #[trigger] m1.contains_key(k) implies entry_well_formed(k, m1[k]) by {
        assert(m.contains_key(k));
    }
}

} // verus!
