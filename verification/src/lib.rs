//! Execution engine for hash-time-locked atomic swaps between two ledgers.

pub mod actions;
pub mod addresses;
pub mod asset;
pub mod btsieve;
pub mod bytes;
pub mod cache;
pub mod config;
pub mod contracts;
pub mod db;
pub mod ethereum_events;
pub mod frame;
pub mod htlc_events;
pub mod htlc_params;
pub mod ids;
pub mod init_swap;
pub mod ledger;
pub mod ledger_state;
pub mod messages;
pub mod query;
pub mod secret;
pub mod seed;
pub mod state;
pub mod swap_resource;
pub mod transaction;
