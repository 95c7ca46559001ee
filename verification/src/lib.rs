//! ZK-Octopus: privacy-preserving urban credentials built from Octopus card
//! transaction records.
//!
//! The library aggregates a cardholder's transactions into a POD credential,
//! evaluates claim predicates over it, produces mock Groth16 proofs with
//! Semaphore-style nullifiers, and issues EAS-style attestations.
pub mod text;
pub mod types;
pub mod outside;
pub mod pod;
pub mod prover;
pub mod eas;
pub mod demo;
pub mod cli;
