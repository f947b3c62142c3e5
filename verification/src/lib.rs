//! A custodial balance-vault protocol.
//!
//! Each owner has one vault: a record holding a balance of native currency
//! units, a lock flag, and the identity of the authority that may withdraw
//! from it or toggle its lock. Anyone may deposit into any unlocked vault;
//! only the authority may withdraw or flip the lock. Every request either
//! fully succeeds, emitting an event, or fails with a typed error and leaves
//! all state untouched.
//!
//! A vault has no entry in any registry: its address is derived
//! deterministically from a fixed namespace tag and the authority's identity,
//! so every component can recompute where a vault lives.
//!
//! Alongside the vault core, the crate carries two small companion pieces: a
//! calculator with an operation history, and a minimal social feed of tweets,
//! comments and reactions.

pub mod account;
pub mod address;
pub mod calculator;
pub mod events;
pub mod guard;
pub mod service;
pub mod twitter;
pub mod vault;
