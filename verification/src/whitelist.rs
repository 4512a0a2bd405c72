//! Whitelisted claims: membership in a list is shown by a Merkle proof.
pub mod campaign;
pub mod contract;
pub mod laws;
pub mod merkle;
