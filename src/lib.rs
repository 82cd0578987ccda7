//! Ingestion core for a relay-fed social event archive: event classification,
//! subscription filters and their wire form, a first-writer-wins record store,
//! and the per-connection session state machine that drives it all.

pub mod classify;
pub mod coordinator;
pub mod event;
pub mod filter;
pub mod session;
pub mod store;
pub mod wire;
