//! What a vault operation reports to observers once it has succeeded.

use vstd::prelude::*;
use crate::address::Address;

verus! {

/// Lamports were deposited into a vault.
#[derive(Clone, Copy, Debug, PartialEq, Eq)]
pub struct DepositEvent {
    pub amount: u64,
    pub user: Address,
    pub vault: Address,
}

/// Lamports were withdrawn from a vault by its authority.
#[derive(Clone, Copy, Debug, PartialEq, Eq)]
pub struct WithdrawEvent {
    pub amount: u64,
    pub vault_authority: Address,
    pub vault: Address,
}

/// A vault's lock was toggled; `locked` is the state it is left in.
#[derive(Clone, Copy, Debug, PartialEq, Eq)]
pub struct ToggleLockEvent {
    pub vault: Address,
    pub vault_authority: Address,
    pub locked: bool,
}

} // verus!
