//! The parts that a transaction is made of.

pub mod amount;
pub mod sapling;
pub mod transparent;

pub use amount::Amount;
