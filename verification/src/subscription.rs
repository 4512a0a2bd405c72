//! Subscription billing: time units, prices and prorated amounts.
pub mod contract;
pub mod lifecycle;
pub mod storage_types;
pub mod subscription;
pub mod utils;
