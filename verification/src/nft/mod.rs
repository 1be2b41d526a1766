//! A registry of unique assets: each asset's id is the hash of its
//! attributes, and each asset has exactly one owner.
pub mod metadata;
pub mod ledger;
pub mod laws;
pub mod pallet;
