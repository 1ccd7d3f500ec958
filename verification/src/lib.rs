//! Verified core of a JAM validator telemetry dashboard.

pub mod bits;
pub mod catalog;
pub mod diagnostics;
pub mod events;
pub mod filter;
pub mod histogram;
pub mod ingest;
pub mod palette;
pub mod store;
pub mod ui;
pub mod upload;
pub mod vring;
pub mod ws_state;
