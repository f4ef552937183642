//! Enrichment stage of an on-chain trade-execution pipeline: turns a routed
//! swap opportunity into an estimate request carrying a signing identity, its
//! snapshotted nonce and balance, and a verified gas/fee policy.
pub mod deploy;
pub mod dispatch;
pub mod enrich;
pub mod fee;
pub mod hexcode;
pub mod types;
