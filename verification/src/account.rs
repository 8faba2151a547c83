//! Accounts as the ledger presents them to a program.

use vstd::prelude::*;
use crate::address::Address;

verus! {

/// A balance-bearing account: its address and the lamports it holds. The
/// balance belongs to the ledger; a program sees it and, for accounts it owns,
/// may change it.
#[derive(Clone, Copy, Debug, PartialEq, Eq)]
pub struct AccountInfo {
    pub key: Address,
    pub lamports: u64,
}

/// A record that a program keeps at an address of its own.
#[derive(Clone, Copy, Debug, PartialEq, Eq)]
pub struct Account<T> {
    pub key: Address,
    pub data: T,
}

/// Moves `lamports` from one account to the other, as the ledger does when a
/// transfer is carried out: what leaves the source arrives at the destination,
/// and nothing else changes.
pub fn move_lamports(from: &mut AccountInfo, to: &mut AccountInfo, lamports: u64)
    requires
        lamports <= old(from).lamports,
        old(from).lamports + old(to).lamports <= u64::MAX,
    ensures
        final(from).key == old(from).key,
        final(to).key == old(to).key,
        final(from).lamports == old(from).lamports - lamports,
        final(to).lamports == old(to).lamports + lamports,
{
    from.lamports = from.lamports - lamports;
    to.lamports = to.lamports + lamports;
}

} // verus!
