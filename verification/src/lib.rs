//! Time-ordered 64-bit identifiers.
//!
//! An identifier packs a millisecond timestamp that never repeats within one
//! generator, a wrapping call counter and a few random bits into a `u64`.
//! [`layout`] fixes where each part sits, [`generator`] holds the generator
//! and its state transition, [`source`] reads the clock and the random
//! source, and [`laws`] proves what a run of calls guarantees.

pub mod generator;
pub mod laws;
pub mod layout;
pub mod source;

pub use generator::{GenState, IdGen, J64IdGen};
