//! A fungible-token ledger: named, divisible balances owned by accounts,
//! delegated spending rights, and supply changes, maintained as a consistent
//! accounting structure under arbitrary sequences of operations.

pub mod laws;
pub mod ledger;
pub mod store;
