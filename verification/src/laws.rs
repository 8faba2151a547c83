//! What holds of every vault, whatever the accounts, the amounts and the
//! addresses derived for them.
//!
//! Each law speaks of an operation through `is_outcome`, the relation that the
//! operation's contract establishes between the accounts before it, the
//! accounts after it and what it returned.

use vstd::prelude::*;
use crate::errors::VaultError;
use crate::events::{ToggleLockEvent, WithdrawEvent};
use crate::instructions::deposit::{Deposit, DepositReceipt};
use crate::instructions::toggle_lock::ToggleLock;
use crate::instructions::withdraw::Withdraw;

verus! {

/// A deposit into a locked vault fails with `VaultLocked` and leaves every
/// account, the holding account's balance among them, as it was. The vault is
/// the one at the derived addresses: accounts that are not there are turned
/// away before the lock is looked at.
pub proof fn lock_gates_deposit(
    before: Deposit,
    after: Deposit,
    r: Result<DepositReceipt, VaultError>,
    amount: u64,
    vault_found: Option<(Seq<u8>, u8)>,
    holding_found: Option<(Seq<u8>, u8)>,
)
    requires
        after.is_outcome(r, before, amount, vault_found, holding_found),
        before.addressed(vault_found, holding_found),
        before.vault.data.locked,
    ensures
        r == Err::<DepositReceipt, VaultError>(VaultError::VaultLocked),
        after == before,
        after.vault_account.lamports == before.vault_account.lamports,
{
}

/// A withdrawal by the authority from its locked vault fails with
/// `VaultLocked` and leaves every account, the holding account's balance among
/// them, as it was.
pub proof fn lock_gates_withdraw(
    before: Withdraw,
    after: Withdraw,
    r: Result<WithdrawEvent, VaultError>,
    amount: u64,
    vault_found: Option<(Seq<u8>, u8)>,
    holding_found: Option<(Seq<u8>, u8)>,
)
    requires
        after.is_outcome(r, before, amount, vault_found, holding_found),
        before.authorized(),
        before.addressed(vault_found, holding_found),
        before.vault.data.locked,
    ensures
        r == Err::<WithdrawEvent, VaultError>(VaultError::VaultLocked),
        after == before,
        after.vault_account.lamports == before.vault_account.lamports,
{
}

/// A withdrawal by anyone but the vault's authority fails with
/// `AuthorizationFailure` and changes nothing, whatever else holds of the
/// accounts.
pub proof fn withdraw_needs_authority(
    before: Withdraw,
    after: Withdraw,
    r: Result<WithdrawEvent, VaultError>,
    amount: u64,
    vault_found: Option<(Seq<u8>, u8)>,
    holding_found: Option<(Seq<u8>, u8)>,
)
    requires
        after.is_outcome(r, before, amount, vault_found, holding_found),
        before.vault_authority.key != before.vault.data.vault_authority,
    ensures
        r == Err::<WithdrawEvent, VaultError>(VaultError::AuthorizationFailure),
        after == before,
{
}

/// A toggle of the lock by anyone but the vault's authority fails with
/// `AuthorizationFailure` and changes nothing, whatever else holds of the
/// accounts.
pub proof fn toggle_lock_needs_authority(
    before: ToggleLock,
    after: ToggleLock,
    r: Result<ToggleLockEvent, VaultError>,
    vault_found: Option<(Seq<u8>, u8)>,
)
    requires
        after.is_outcome(r, before, vault_found),
        before.vault_authority.key != before.vault.data.vault_authority,
    ensures
        r == Err::<ToggleLockEvent, VaultError>(VaultError::AuthorizationFailure),
        after == before,
{
}

/// Two toggles in a row leave the lock, and with it all the accounts, as they
/// were: both go through or both are refused.
pub proof fn toggle_lock_twice_restores(
    before: ToggleLock,
    between: ToggleLock,
    after: ToggleLock,
    first: Result<ToggleLockEvent, VaultError>,
    second: Result<ToggleLockEvent, VaultError>,
    vault_found: Option<(Seq<u8>, u8)>,
)
    requires
        between.is_outcome(first, before, vault_found),
        after.is_outcome(second, between, vault_found),
    ensures
        after.vault.data.locked == before.vault.data.locked,
        after == before,
        first is Ok <==> second is Ok,
        first is Ok ==> between.vault.data.locked != before.vault.data.locked,
{
}

/// A withdrawal of more than the holding account holds, made by the authority
/// from its unlocked vault, fails with `InsufficientBalance` and leaves the
/// balance, and every account, as it was.
pub proof fn overdraw_is_refused(
    before: Withdraw,
    after: Withdraw,
    r: Result<WithdrawEvent, VaultError>,
    amount: u64,
    vault_found: Option<(Seq<u8>, u8)>,
    holding_found: Option<(Seq<u8>, u8)>,
)
    requires
        after.is_outcome(r, before, amount, vault_found, holding_found),
        before.authorized(),
        before.addressed(vault_found, holding_found),
        !before.vault.data.locked,
        amount > before.vault_account.lamports,
    ensures
        r == Err::<WithdrawEvent, VaultError>(VaultError::InsufficientBalance),
        after == before,
        after.vault_account.lamports == before.vault_account.lamports,
{
}

/// A deposit is open to everyone: on an unlocked vault at its addresses it
/// goes through for any depositor who holds the amount, the authority or not.
pub proof fn deposit_needs_no_authority(
    before: Deposit,
    after: Deposit,
    r: Result<DepositReceipt, VaultError>,
    amount: u64,
    vault_found: Option<(Seq<u8>, u8)>,
    holding_found: Option<(Seq<u8>, u8)>,
)
    requires
        before.wf(),
        after.is_outcome(r, before, amount, vault_found, holding_found),
        before.addressed(vault_found, holding_found),
        !before.vault.data.locked,
        amount <= before.user.lamports,
    ensures
        r is Ok,
        after.vault_account.lamports == before.vault_account.lamports + amount,
        after.user.lamports == before.user.lamports - amount,
        after.vault == before.vault,
{
}

/// A withdrawal that goes through conserves value: what leaves the holding
/// account is what the authority gains.
pub proof fn withdraw_conserves_value(
    before: Withdraw,
    after: Withdraw,
    r: Result<WithdrawEvent, VaultError>,
    amount: u64,
    vault_found: Option<(Seq<u8>, u8)>,
    holding_found: Option<(Seq<u8>, u8)>,
)
    requires
        before.wf(),
        after.is_outcome(r, before, amount, vault_found, holding_found),
        r is Ok,
    ensures
        before.vault_account.lamports - after.vault_account.lamports == amount,
        after.vault_authority.lamports - before.vault_authority.lamports == amount,
        after.vault_account.lamports + after.vault_authority.lamports
            == before.vault_account.lamports + before.vault_authority.lamports,
        after.vault == before.vault,
{
}

/// A deposit, refused or not, leaves the vault's state record as it is: the
/// authority, the lock and the record's address.
pub proof fn deposit_keeps_the_record(
    before: Deposit,
    after: Deposit,
    r: Result<DepositReceipt, VaultError>,
    amount: u64,
    vault_found: Option<(Seq<u8>, u8)>,
    holding_found: Option<(Seq<u8>, u8)>,
)
    requires
        after.is_outcome(r, before, amount, vault_found, holding_found),
    ensures
        after.vault == before.vault,
{
}

/// A withdrawal, refused or not, leaves the vault's state record as it is: the
/// authority, the lock and the record's address.
pub proof fn withdraw_keeps_the_record(
    before: Withdraw,
    after: Withdraw,
    r: Result<WithdrawEvent, VaultError>,
    amount: u64,
    vault_found: Option<(Seq<u8>, u8)>,
    holding_found: Option<(Seq<u8>, u8)>,
)
    requires
        after.is_outcome(r, before, amount, vault_found, holding_found),
    ensures
        after.vault == before.vault,
{
}

/// A toggle never reassigns the authority, and it changes the lock exactly
/// where it goes through, which it does for the authority alone.
pub proof fn toggle_lock_keeps_the_authority(
    before: ToggleLock,
    after: ToggleLock,
    r: Result<ToggleLockEvent, VaultError>,
    vault_found: Option<(Seq<u8>, u8)>,
)
    requires
        after.is_outcome(r, before, vault_found),
    ensures
        after.vault.data.vault_authority == before.vault.data.vault_authority,
        after.vault.key == before.vault.key,
        r is Ok <==> after.vault.data.locked != before.vault.data.locked,
        r is Ok ==> before.authorized(),
{
}

/// A deposit that fails has no effect at all: every account is as it was.
pub proof fn refused_deposit_changes_nothing(
    before: Deposit,
    after: Deposit,
    r: Result<DepositReceipt, VaultError>,
    amount: u64,
    vault_found: Option<(Seq<u8>, u8)>,
    holding_found: Option<(Seq<u8>, u8)>,
)
    requires
        after.is_outcome(r, before, amount, vault_found, holding_found),
        r is Err,
    ensures
        after == before,
        before.refusal(amount, vault_found, holding_found) == Some(r->Err_0),
{
}

/// A withdrawal that fails has no effect at all: every account is as it was.
pub proof fn refused_withdraw_changes_nothing(
    before: Withdraw,
    after: Withdraw,
    r: Result<WithdrawEvent, VaultError>,
    amount: u64,
    vault_found: Option<(Seq<u8>, u8)>,
    holding_found: Option<(Seq<u8>, u8)>,
)
    requires
        after.is_outcome(r, before, amount, vault_found, holding_found),
        r is Err,
    ensures
        after == before,
        before.refusal(amount, vault_found, holding_found) == Some(r->Err_0),
{
}

/// A toggle that fails has no effect at all: every account is as it was.
pub proof fn refused_toggle_lock_changes_nothing(
    before: ToggleLock,
    after: ToggleLock,
    r: Result<ToggleLockEvent, VaultError>,
    vault_found: Option<(Seq<u8>, u8)>,
)
    requires
        after.is_outcome(r, before, vault_found),
        r is Err,
    ensures
        after == before,
        before.refusal(vault_found) == Some(r->Err_0),
{
}

} // verus!
