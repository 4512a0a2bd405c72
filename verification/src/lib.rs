//! The rules of a platform's on-ledger contracts, apart from the ledger:
//! each operation takes the state, the clock and the balances it needs as
//! plain values and says what becomes of them.
pub mod address;
pub mod escrow;
pub mod governance;
pub mod subscription;
pub mod whitelist;
