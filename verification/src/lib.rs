//! Speculative transaction execution and fee estimation for a Starknet-style ledger.
//!
//! The crate layers buffered, discardable writes over a world-state handle, decides how
//! each kind of transaction is run, turns execution results into fee estimates, and
//! drives whole batches without ever touching the state it was handed.

pub mod contract_class;
pub mod da;
pub mod declare;
pub mod execution;
pub mod fee;
pub mod job;
pub mod report;
pub mod simulations;
pub mod state;
pub mod transaction;
pub mod vectors;
pub mod weights;
