//! A trustless two-party atomic token-swap escrow.
//!
//! A maker deposits an amount of asset A into a vault and states the amount
//! of asset B wanted in return. Any taker may fulfil the offer by paying the
//! wanted amount to the maker in the same atomic step that releases the
//! vaulted asset to them, or the maker may cancel and reclaim the deposit.
//! Exactly one of the two terminal operations succeeds per offer.
//!
//! The surrounding ledger runtime (account storage, signature checks,
//! all-or-nothing execution, storage deposits) is an external collaborator;
//! this crate models its interface: the offer store is a key-value store
//! addressed by the offer id, a token account is its owner, mint and balance,
//! and authority over the vault is a deterministic derivation from the offer
//! id rather than a private key.

pub mod error;
pub mod instructions;
pub mod laws;
pub mod shared;
pub mod state;
pub mod store;
