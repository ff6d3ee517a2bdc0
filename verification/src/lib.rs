//! Verified models of two real-estate contracts: a crowdfunding platform
//! (campaigns, investors, milestones, governance, a secondary share market,
//! risk ratings and discovery queries) and a lending pool with a
//! utilization-based interest rate.
//!
//! The contracts' state lives in plain values of this crate; the caller of a
//! message is passed in explicitly and emitted events are recorded in the
//! state, so every rule of the contracts is checked by Verus.

pub mod account;
pub mod storage;

pub use account::{AccountId, StorageKey};
pub use storage::StorageMap;
pub mod lending;
pub mod types;
pub mod rules;
pub mod crowdfunding;
pub mod text;
pub mod discovery;
pub mod laws;
pub mod ledger;
pub mod behaviour;
