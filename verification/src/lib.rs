//! Verified core of three small on-chain programs: a custodial vault, a diary
//! and a board of tweets.
//!
//! The vault is the centre of the crate. One authority owns a vault; anyone may
//! deposit into its holding account, only the authority may withdraw or toggle
//! the lock, and a locked vault refuses both deposits and withdrawals. Every
//! operation either takes full effect or leaves its accounts untouched.
//!
//! The operations work on plain values: the accounts of a transaction as the
//! runtime presents them, with their addresses and balances. What an operation
//! returns says what is left to do outside: the transfer to carry out and the
//! event to emit.

pub mod account;
pub mod address;
pub mod clock;
pub mod diary;
pub mod errors;
pub mod events;
pub mod hash;
pub mod history;
pub mod instructions;
pub mod laws;
pub mod pda;
pub mod state;
pub mod system;
pub mod twitter;

pub use crate::account::{Account, AccountInfo};
pub use crate::address::Address;
pub use crate::errors::VaultError;
pub use crate::events::{DepositEvent, ToggleLockEvent, WithdrawEvent};
pub use crate::instructions::deposit::{_deposit, deposit_at, Deposit, DepositReceipt};
pub use crate::instructions::toggle_lock::{_toggle_lock, toggle_lock_at, ToggleLock};
pub use crate::instructions::withdraw::{_withdraw, withdraw_at, Withdraw};
pub use crate::state::{find_vault_account_address, find_vault_address, Vault};
