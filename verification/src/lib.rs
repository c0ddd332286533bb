//! Verified core of the StellarCred credential contracts.

pub mod outside;
pub mod table;
pub mod credential_types;
pub mod public_inputs;
pub mod proof_registry;
pub mod credential_verifier;
pub mod laws;
