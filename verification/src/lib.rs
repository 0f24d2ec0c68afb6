//! Benchmark circuits for pairing-based cryptography over BLS12-377.
//!
//! For one operation of a fixed catalogue the crate samples a
//! self-consistent problem instance, then drives the gadget library so that
//! the operation's defining relation is laid down in a rank-1 constraint
//! system.  The arithmetic itself (fields, curves, pairings, gadgets, the
//! sponge) is the work of the `ark-*` crates; what is proved here is the
//! logic around them: which operations have an encoding, which gadget calls
//! an operation issues and in which order, how failures travel, and when a
//! sampled instance counts as consistent.

pub mod bls12381;
pub mod catalog;
pub mod dispatch;
pub mod error;
pub mod field;
mod gadgets;
pub mod group;
pub mod laws;
pub mod nna;
pub mod params;
pub mod system;
pub mod witness;

pub use catalog::{NNAMode, OpMode};
pub use error::CircuitError;
pub use nna::{NNACircuit, ScalarConstraintSystem};
pub use params::HashParameters;
pub use system::ConstraintSystem;
pub use witness::FqCircuit;
