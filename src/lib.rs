//! Collateral-backed issuance of synthetic assets: the arithmetic that prices
//! a mint or a burn, the per-asset record and its bookkeeping, and the
//! decisions of the issuance engine, each stated and proved over plain values.

pub mod collateral;
pub mod error;
pub mod asset;
pub mod events;
pub mod engine;
pub mod laws;
pub mod collection;
