//! The offer store: the external key-value store that holds one offer
//! record, together with its vault, per outstanding escrow, addressed by the
//! maker-chosen id.

use vstd::prelude::*;

use crate::state::Offer;
use crate::state::TokenAccount;

verus! {

broadcast use vstd::std_specs::hash::group_hash_axioms;

/// An offer record together with the vault custody account bound to it.
/// The two are created together by Make and destroyed together by Take or
/// Refund; the vault never outlives its offer.
#[derive(Clone, Copy, PartialEq, Eq, Structural, Debug)]
pub struct OfferEntry {
    pub offer: Offer,
    pub vault: TokenAccount,
}

/// The store itself, seen in contracts as a map from id to entry.
pub struct OfferStore {
    entries: vstd::hash_map::HashMapWithView<u64, OfferEntry>,
}

impl View for OfferStore {
    type V = Map<u64, OfferEntry>;

    closed spec fn view(&self) -> Map<u64, OfferEntry> {
        self.entries@
    }
}

impl OfferStore {
    /// An empty store: no offer outstanding.
    pub fn new() -> (store: OfferStore)
        ensures
            store@ == Map::<u64, OfferEntry>::empty(),
    {
        OfferStore { entries: vstd::hash_map::HashMapWithView::new() }
    }

    /// Whether an offer record exists under `id`.
    pub fn contains(&self, id: u64) -> (found: bool)
        ensures
            found == self@.contains_key(id),
    {
        self.entries.contains_key(&id)
    }

    /// Reads the record under `id`, if one exists.
    pub fn get(&self, id: u64) -> (entry: Option<OfferEntry>)
        ensures
            match entry {
                Some(e) => self@.contains_key(id) && e == self@[id],
                None => !self@.contains_key(id),
            },
    {
        match self.entries.get(&id) {
            Some(e) => Some(*e),
            None => None,
        }
    }

    /// Creates the record under its offer's id. The store's creation
    /// semantics reject an id collision, so a caller never presents one.
    pub fn create(&mut self, entry: OfferEntry)
        requires
            !old(self)@.contains_key(entry.offer.id),
        ensures
            final(self)@ == old(self)@.insert(entry.offer.id, entry),
    {
        self.entries.insert(entry.offer.id, entry);
    }

    /// Destroys the record under `id`, returning it; the store is unchanged
    /// when no record exists.
    pub fn delete(&mut self, id: u64) -> (removed: Option<OfferEntry>)
        ensures
            final(self)@ == old(self)@.remove(id),
            match removed {
                Some(e) => old(self)@.contains_key(id) && e == old(self)@[id],
                None => !old(self)@.contains_key(id),
            },
    {
        let removed = self.entries.remove(&id);
        proof {
            if removed is None {
                assert(old(self)@.remove(id) =~= old(self)@);
            }
        }
        removed
    }
}

} // verus!
