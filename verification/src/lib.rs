//! Deterministic, collision-safe creation of per-owner governance records.
//!
//! Given a governance realm, a governing token mint accepted by that realm,
//! and a token-holding identity, the library derives a unique storage
//! address, verifies the target account is unoccupied, and builds the new
//! record together with the ledger-state transition that persists it.

pub mod account_tools;
pub mod accounts;
pub mod addresses;
pub mod enums;
pub mod error;
pub mod layout;
pub mod processor;
pub mod pubkey;
pub mod realm;
pub mod token_owner_record;
