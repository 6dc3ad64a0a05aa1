//! A custodial ledger over a single configurable fungible-token currency.
//!
//! The ledger tracks named accounts, each owned by one external identity and
//! holding a non-negative balance. It supports account creation, deposits
//! notified by the currency's token system, withdrawals back to the owning
//! identity, peer-to-peer transfers with a proportional fee on cross-owner
//! transfers, and administrative reconfiguration of the currency.
//!
//! The store, the transition engine, the authorization checks and the query
//! layer live here and are verified; binding to an execution host (persistent
//! storage, message encoding, address validation) is the embedder's concern.

pub mod contract;
pub mod error;
pub mod laws;
pub mod msg;
pub mod state;
pub mod store;
