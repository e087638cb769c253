//! Canonical wire encoding of Sapling-style shielded action records and the
//! per-input signature hash of a multi-asset shielded-pool transaction.

pub mod curve;
pub mod encoding;
pub mod redjubjub;
pub mod sapling;
pub mod transaction;
