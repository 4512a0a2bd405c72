//! Escrowed payments: how an amount is held, released, disputed and split
//! between the platform, the referrer and the organizer.
pub mod contract;
pub mod lifecycle;
pub mod shares;
pub mod storage_types;
