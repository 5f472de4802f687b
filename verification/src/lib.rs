//! An admin-gated oracle for purchase and redemption rates.
//!
//! The crate keeps, for every denom, a bounded history of rate records ordered
//! by the sequence under which each record was posted. Writes are restricted to
//! a single admin, reads are open to everyone. Every public function carries a
//! contract over the mathematical model of the state it works on.

pub mod access;
pub mod context;
pub mod contract;
pub mod decimal;
pub mod error;
pub mod execute;
pub mod history;
pub mod ledger;
pub mod msg;
pub mod query;
pub mod state;
pub mod validate;
pub mod version;
