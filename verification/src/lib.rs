//! A gas-sponsorship ledger with cross-chain dispatch and receipt
//! reconciliation.
//!
//! Account holders pre-fund shared pools that pay the fees of sponsored
//! calls executed on remote domains. The library keeps the pool balances,
//! spending counters, the append-only transaction log and the in-flight
//! pending index consistent while dispatched calls succeed, fail, time out
//! or never report back.

pub mod auth;
pub mod fees;
pub mod gateway;
pub mod hashing;
pub mod ledger;
pub mod message;
pub mod notify;
pub mod receipt;
pub mod retry;
pub mod rpc;
pub mod tracker;
pub mod types;
