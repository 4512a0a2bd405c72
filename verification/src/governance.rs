//! A token-weighted governance engine.
//!
//! Members submit proposals, vote with power derived from their balances
//! (linearly or by integer square root), may delegate their power one level
//! deep, and proposals are queued and executed only after quorum and
//! threshold rules pass and a timelock has elapsed.
pub mod ballots;
pub mod contract;
pub mod laws;
pub mod lifecycle;
pub mod model;
pub mod power;
pub mod storage;
