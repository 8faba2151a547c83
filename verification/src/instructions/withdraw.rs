//! Withdrawing from a vault.

use vstd::prelude::*;
use crate::account::{move_lamports, Account, AccountInfo};
use crate::address::Address;
use crate::errors::VaultError;
use crate::events::WithdrawEvent;
use crate::pda::{found_view, is_derived, matches_derived};
use crate::state::{
    find_vault_account_address, find_vault_address, vault_account_pda, vault_pda, Vault,
};

verus! {

/// The accounts of a withdrawal.
#[derive(Clone, Copy, Debug, PartialEq, Eq)]
pub struct Withdraw {
    /// The program that runs the vault.
    pub program_id: Address,
    /// The caller, who has signed and who receives the lamports. It must be
    /// the vault's authority.
    pub vault_authority: AccountInfo,
    /// The vault's state record.
    pub vault: Account<Vault>,
    /// The vault's holding account, which pays the lamports out.
    pub vault_account: AccountInfo,
}

impl Withdraw {
    /// The two balances are drawn from one ledger, whose whole supply is
    /// counted in 64 bits.
    pub open spec fn wf(&self) -> bool {
        self.vault_authority.lamports + self.vault_account.lamports <= u64::MAX
    }

    /// Whether the caller is the authority that the state record names.
    pub open spec fn authorized(&self) -> bool {
        self.vault_authority.key == self.vault.data.vault_authority
    }

    /// Whether the state record and the holding account are at the addresses
    /// that were derived for them.
    pub open spec fn addressed(
        &self,
        vault_found: Option<(Seq<u8>, u8)>,
        holding_found: Option<(Seq<u8>, u8)>,
    ) -> bool {
        is_derived(self.vault.key, vault_found) && is_derived(self.vault_account.key, holding_found)
    }

    /// The error with which a withdrawal of `amount` is refused, `None` where
    /// it goes through. The caller's identity is checked first, then the
    /// accounts' addresses, then the lock, then the holding account's balance.
    pub open spec fn refusal(
        &self,
        amount: u64,
        vault_found: Option<(Seq<u8>, u8)>,
        holding_found: Option<(Seq<u8>, u8)>,
    ) -> Option<VaultError> {
        if !self.authorized() {
            Some(VaultError::AuthorizationFailure)
        } else if !self.addressed(vault_found, holding_found) {
            Some(VaultError::AddressMismatch)
        } else if self.vault.data.locked {
            Some(VaultError::VaultLocked)
        } else if self.vault_account.lamports < amount {
            Some(VaultError::InsufficientBalance)
        } else {
            None
        }
    }

    /// The accounts after a withdrawal of `amount` has gone through: the
    /// amount has moved from the holding account to the authority, and the
    /// state record is as it was.
    pub open spec fn settled(&self, amount: u64) -> Withdraw
        recommends
            self.wf(),
            amount <= self.vault_account.lamports,
    {
        Withdraw {
            program_id: self.program_id,
            vault_authority: AccountInfo {
                key: self.vault_authority.key,
                lamports: (self.vault_authority.lamports + amount) as u64,
            },
            vault: self.vault,
            vault_account: AccountInfo {
                key: self.vault_account.key,
                lamports: (self.vault_account.lamports - amount) as u64,
            },
        }
    }

    /// The event of a withdrawal of `amount`.
    pub open spec fn event(&self, amount: u64) -> WithdrawEvent {
        WithdrawEvent {
            amount,
            vault_authority: self.vault_authority.key,
            vault: self.vault.key,
        }
    }

    /// Whether these accounts and what a withdrawal of `amount` returned are
    /// the outcome of that withdrawal on the accounts `before`.
    pub open spec fn is_outcome(
        &self,
        r: Result<WithdrawEvent, VaultError>,
        before: Withdraw,
        amount: u64,
        vault_found: Option<(Seq<u8>, u8)>,
        holding_found: Option<(Seq<u8>, u8)>,
    ) -> bool {
        match before.refusal(amount, vault_found, holding_found) {
            Some(error) => r == Err::<WithdrawEvent, VaultError>(error) && *self == before,
            None => r == Ok::<WithdrawEvent, VaultError>(before.event(amount)) && *self
                == before.settled(amount),
        }
    }

    /// Tells whether the two balances fit one ledger.
    pub fn is_wf(&self) -> (r: bool)
        ensures
            r == self.wf(),
    {
        self.vault_authority.lamports <= u64::MAX - self.vault_account.lamports
    }
}

/// Withdraws `amount` lamports from the vault to its authority, given the
/// addresses that were derived for the vault's state record and its holding
/// account.
///
/// The withdrawal is refused with `AuthorizationFailure` where the caller is
/// not the vault's authority, else with `AddressMismatch` where either account
/// is not at its address, else with `VaultLocked` where the vault is locked,
/// else with `InsufficientBalance` where the holding account holds less than
/// `amount`; a refused withdrawal changes nothing. Otherwise the amount moves
/// from the holding account to the authority: both balances change or neither
/// does. A withdrawal of zero lamports goes through and moves nothing.
pub fn withdraw_at(
    ctx: &mut Withdraw,
    amount: u64,
    vault_found: Option<(Address, u8)>,
    holding_found: Option<(Address, u8)>,
) -> (r: Result<WithdrawEvent, VaultError>)
    requires
        old(ctx).wf(),
    ensures
        final(ctx).wf(),
        final(ctx).is_outcome(
            r,
            *old(ctx),
            amount,
            found_view(vault_found),
            found_view(holding_found),
        ),
{
    if ctx.vault_authority.key != ctx.vault.data.vault_authority {
        return Err(VaultError::AuthorizationFailure);
    }
    if !matches_derived(&ctx.vault.key, &vault_found) {
        return Err(VaultError::AddressMismatch);
    }
    if !matches_derived(&ctx.vault_account.key, &holding_found) {
        return Err(VaultError::AddressMismatch);
    }
    if ctx.vault.data.locked {
        return Err(VaultError::VaultLocked);
    }
    if ctx.vault_account.lamports < amount {
        return Err(VaultError::InsufficientBalance);
    }
    move_lamports(&mut ctx.vault_account, &mut ctx.vault_authority, amount);
    Ok(WithdrawEvent { amount, vault_authority: ctx.vault_authority.key, vault: ctx.vault.key })
}

/// Withdraws `amount` lamports from the vault to its authority. The addresses
/// of the vault's two accounts are derived from the authority that the state
/// record names; the rest is as in [`withdraw_at`].
pub fn _withdraw(ctx: &mut Withdraw, amount: u64) -> (r: Result<WithdrawEvent, VaultError>)
    requires
        old(ctx).wf(),
    ensures
        final(ctx).wf(),
        final(ctx).is_outcome(
            r,
            *old(ctx),
            amount,
            vault_pda(old(ctx).program_id, old(ctx).vault.data.vault_authority),
            vault_account_pda(old(ctx).program_id, old(ctx).vault.data.vault_authority),
        ),
{
    let vault_found = find_vault_address(&ctx.program_id, &ctx.vault.data.vault_authority);
    let holding_found = find_vault_account_address(
        &ctx.program_id,
        &ctx.vault.data.vault_authority,
    );
    withdraw_at(ctx, amount, vault_found, holding_found)
}

} // verus!
