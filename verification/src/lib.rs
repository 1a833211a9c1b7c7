//! Verification of single 64-bit Bulletproofs range proofs against
//! Pedersen commitments, with every request resolved to one outcome.

pub mod laws;
pub mod layout;
pub mod outcome;
pub mod primitives;
pub mod rangeproof;
pub mod setup;
pub mod request;
