//! Accounting and pricing engine of a constant-function liquidity pool with
//! bounded-range liquidity, time-bounded reward streams and protocol fee
//! collection.
//!
//! The crate is organised leaves first: `math` holds the checked fixed-point
//! multiply-divide primitive, `curve` maps liquidity to asset amounts, `pool`
//! and `position` hold the state machines built on top of them, and `reward`
//! manages the per-pool reward slots. Custody transfer, signature checks and
//! persistent storage are collaborators outside this crate: every operation
//! here takes plain values and returns plain values.

pub mod config;
pub mod constants;
pub mod curve;
pub mod errors;
pub mod events;
pub mod math;
pub mod pool;
pub mod position;
pub mod reward;
