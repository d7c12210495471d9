//! Custody forwarding: deterministic forward accounts that hold native and
//! token balances and release them either to a fixed destination or, under
//! an authority's signature, to a fixed quarantine address.
//!
//! Everything here works on plain snapshots of accounts and returns what is
//! to be done; the host program performs the cross-program calls.

pub mod accounts;
pub mod address;
pub mod bytes;
pub mod create;
pub mod derivation;
pub mod errors;
pub mod instruction;
pub mod release;
pub mod state;
pub mod sweep;
pub mod token_account;
