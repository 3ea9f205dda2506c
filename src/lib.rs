//! A guarded execution engine for multi-venue arbitrage: admission control,
//! an all-or-nothing execution state machine with an optional flash loan,
//! authority-gated administration, a store of per-authority records, and the
//! instruction payloads handed to the trading venues and the lending pool.

pub mod address;
pub mod admin;
pub mod execution;
pub mod instruction;
pub mod model;
pub mod orca;
pub mod store;
