//! Verified core of a connected-vehicle ledger platform: an identity
//! registry for decentralized identifiers, an asset registry for vehicles
//! and sensors, and a telemetry processor with deduplicated, quality-gated
//! ingestion and incremental statistics.
//!
//! The host execution context (caller principal, block height, block
//! timestamp) is threaded explicitly into every operation, and emitted
//! notifications are collected into per-registry event logs.

pub mod hashing;
pub mod host;
pub mod arith;
pub mod assets;
pub mod identity;
pub mod kv;
pub mod multimap;
pub mod telemetry;
