//! A poll ledger: polls with a voting window, candidates scoped to a poll,
//! and one vote record per voter per poll, all kept in an explicit keyed
//! store; with the derivation of each record's address, and a small
//! account-backed counter.
pub mod address;
pub mod basics;
pub mod counter;
pub mod laws;
pub mod ledger;
