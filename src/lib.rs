//! A small ledger for a tipping and paywall platform.
//!
//! The library keeps user profiles and paywalls in a keyed store and decides,
//! for each operation, whether it succeeds, which token transfer the host must
//! perform, how the records change and which event is emitted. Token movement,
//! signatures and the clock belong to the host: their results come in as plain
//! values.
pub mod instructions;
pub mod key;
pub mod laws;
pub mod ledger;
