//! A verifier of zero-knowledge location proofs, and the rules of the
//! matchmaking service that consults it.
//!
//! A location proof claims that its author occupies a cell of a grid without
//! revealing where. The verifier checks a proof against a Groth16-style
//! verification key over BN254 and accepts each proof at most once.
//!
//! The verifier:
//!
//! - [`curve`]: points of G1 and G2 and the operations on them, done by the
//!   Soroban host;
//! - [`digest`]: SHA-256, done by the host;
//! - [`key`]: the verification key and the store of the active one;
//! - [`location_proof`]: the proof, its layout and the ranges of its inputs;
//! - [`equation`]: the input commitment and the pairing equation;
//! - [`ledger`]: the replay ledger;
//! - [`engine`]: verification, batches and the administrative operations;
//! - [`laws`]: what holds of all of these, proved.
//!
//! The matchmaking service:
//!
//! - [`session`]: sessions of two parties and how a match is resolved;
//! - [`policy`]: which countries may take part;
//! - [`vault`]: the country vaults and their balances.

pub mod bytes;
pub mod curve;
pub mod digest;
pub mod engine;
pub mod env;
pub mod equation;
pub mod key;
pub mod laws;
pub mod ledger;
pub mod location_proof;
pub mod policy;
pub mod rejection;
pub mod session;
pub mod vault;
