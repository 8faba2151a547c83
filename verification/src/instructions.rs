//! The vault's three operations.

pub mod deposit;
pub mod toggle_lock;
pub mod withdraw;
