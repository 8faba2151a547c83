//! Depositing into a vault.

use vstd::prelude::*;
use crate::account::{move_lamports, Account, AccountInfo};
use crate::address::Address;
use crate::errors::VaultError;
use crate::events::DepositEvent;
use crate::pda::{found_view, is_derived, matches_derived};
use crate::state::{
    find_vault_account_address, find_vault_address, vault_account_pda, vault_pda, Vault,
};
use crate::system::{is_transfer, transfer, Instruction};

verus! {

/// The accounts of a deposit.
#[derive(Clone, Copy, Debug, PartialEq, Eq)]
pub struct Deposit {
    /// The program that runs the vault.
    pub program_id: Address,
    /// The depositor, who has signed. It need not be the vault's authority.
    pub user: AccountInfo,
    /// The vault's state record.
    pub vault: Account<Vault>,
    /// The vault's holding account, which receives the lamports.
    pub vault_account: AccountInfo,
}

/// What a deposit that went through hands back: the transfer that the system
/// program is to carry out, and the event to emit.
#[derive(Clone, Debug, PartialEq, Eq)]
pub struct DepositReceipt {
    pub transfer: Instruction,
    pub event: DepositEvent,
}

impl Deposit {
    /// The two balances are drawn from one ledger, whose whole supply is
    /// counted in 64 bits.
    pub open spec fn wf(&self) -> bool {
        self.user.lamports + self.vault_account.lamports <= u64::MAX
    }

    /// Whether the state record and the holding account are at the addresses
    /// that were derived for them.
    pub open spec fn addressed(
        &self,
        vault_found: Option<(Seq<u8>, u8)>,
        holding_found: Option<(Seq<u8>, u8)>,
    ) -> bool {
        is_derived(self.vault.key, vault_found) && is_derived(self.vault_account.key, holding_found)
    }

    /// The error with which a deposit of `amount` is refused, `None` where it
    /// goes through. The accounts' addresses are checked first, then the lock,
    /// then the depositor's balance.
    pub open spec fn refusal(
        &self,
        amount: u64,
        vault_found: Option<(Seq<u8>, u8)>,
        holding_found: Option<(Seq<u8>, u8)>,
    ) -> Option<VaultError> {
        if !self.addressed(vault_found, holding_found) {
            Some(VaultError::AddressMismatch)
        } else if self.vault.data.locked {
            Some(VaultError::VaultLocked)
        } else if self.user.lamports < amount {
            Some(VaultError::InsufficientBalance)
        } else {
            None
        }
    }

    /// The accounts after a deposit of `amount` has gone through: the amount
    /// has moved from the depositor to the holding account, and the state
    /// record is as it was.
    pub open spec fn settled(&self, amount: u64) -> Deposit
        recommends
            self.wf(),
            amount <= self.user.lamports,
    {
        Deposit {
            program_id: self.program_id,
            user: AccountInfo {
                key: self.user.key,
                lamports: (self.user.lamports - amount) as u64,
            },
            vault: self.vault,
            vault_account: AccountInfo {
                key: self.vault_account.key,
                lamports: (self.vault_account.lamports + amount) as u64,
            },
        }
    }

    /// The event of a deposit of `amount`.
    pub open spec fn event(&self, amount: u64) -> DepositEvent {
        DepositEvent { amount, user: self.user.key, vault: self.vault.key }
    }

    /// Whether these accounts and what a deposit of `amount` returned are the
    /// outcome of that deposit on the accounts `before`.
    pub open spec fn is_outcome(
        &self,
        r: Result<DepositReceipt, VaultError>,
        before: Deposit,
        amount: u64,
        vault_found: Option<(Seq<u8>, u8)>,
        holding_found: Option<(Seq<u8>, u8)>,
    ) -> bool {
        match before.refusal(amount, vault_found, holding_found) {
            Some(error) => r == Err::<DepositReceipt, VaultError>(error) && *self == before,
            None => {
                &&& r matches Ok(receipt)
                &&& receipt.event == before.event(amount)
                &&& is_transfer(receipt.transfer, before.user.key, before.vault_account.key, amount)
                &&& *self == before.settled(amount)
            },
        }
    }

    /// Tells whether the two balances fit one ledger.
    pub fn is_wf(&self) -> (r: bool)
        ensures
            r == self.wf(),
    {
        self.user.lamports <= u64::MAX - self.vault_account.lamports
    }
}

/// Deposits `amount` lamports from the user into the vault, given the addresses
/// that were derived for the vault's state record and its holding account.
///
/// The deposit is refused with `AddressMismatch` where either account is not at
/// its address, else with `VaultLocked` where the vault is locked, else with
/// `InsufficientBalance` where the user holds less than `amount`; a refused
/// deposit changes nothing. Otherwise the amount moves from the user to the
/// holding account and the state record stays as it is. A deposit of zero
/// lamports goes through and moves nothing.
pub fn deposit_at(
    ctx: &mut Deposit,
    amount: u64,
    vault_found: Option<(Address, u8)>,
    holding_found: Option<(Address, u8)>,
) -> (r: Result<DepositReceipt, VaultError>)
    requires
        old(ctx).wf(),
    ensures
        final(ctx).wf(),
        final(ctx).is_outcome(
            r,
            *old(ctx),
            amount,
            found_view(vault_found),
            found_view(holding_found),
        ),
{
    if !matches_derived(&ctx.vault.key, &vault_found) {
        return Err(VaultError::AddressMismatch);
    }
    if !matches_derived(&ctx.vault_account.key, &holding_found) {
        return Err(VaultError::AddressMismatch);
    }
    if ctx.vault.data.locked {
        return Err(VaultError::VaultLocked);
    }
    if ctx.user.lamports < amount {
        return Err(VaultError::InsufficientBalance);
    }
    let instruction = transfer(&ctx.user.key, &ctx.vault_account.key, amount);
    move_lamports(&mut ctx.user, &mut ctx.vault_account, amount);
    Ok(
        DepositReceipt {
            transfer: instruction,
            event: DepositEvent { amount, user: ctx.user.key, vault: ctx.vault.key },
        },
    )
}

/// Deposits `amount` lamports from the user into the vault. The addresses of
/// the vault's two accounts are derived from the authority that the state
/// record names; the rest is as in [`deposit_at`].
pub fn _deposit(ctx: &mut Deposit, amount: u64) -> (r: Result<DepositReceipt, VaultError>)
    requires
        old(ctx).wf(),
    ensures
        final(ctx).wf(),
        final(ctx).is_outcome(
            r,
            *old(ctx),
            amount,
            vault_pda(old(ctx).program_id, old(ctx).vault.data.vault_authority),
            vault_account_pda(old(ctx).program_id, old(ctx).vault.data.vault_authority),
        ),
{
    let vault_found = find_vault_address(&ctx.program_id, &ctx.vault.data.vault_authority);
    let holding_found = find_vault_account_address(
        &ctx.program_id,
        &ctx.vault.data.vault_authority,
    );
    deposit_at(ctx, amount, vault_found, holding_found)
}

} // verus!
