//! Toggling a vault's lock.

use vstd::prelude::*;
use crate::account::{Account, AccountInfo};
use crate::address::Address;
use crate::errors::VaultError;
use crate::events::ToggleLockEvent;
use crate::pda::{found_view, is_derived, matches_derived};
use crate::state::{find_vault_address, vault_pda, Vault};

verus! {

/// The accounts of a toggle of the lock.
#[derive(Clone, Copy, Debug, PartialEq, Eq)]
pub struct ToggleLock {
    /// The program that runs the vault.
    pub program_id: Address,
    /// The caller, who has signed. It must be the vault's authority.
    pub vault_authority: AccountInfo,
    /// The vault's state record.
    pub vault: Account<Vault>,
}

impl ToggleLock {
    /// Whether the caller is the authority that the state record names.
    pub open spec fn authorized(&self) -> bool {
        self.vault_authority.key == self.vault.data.vault_authority
    }

    /// The error with which a toggle is refused, `None` where it goes through.
    /// The caller's identity is checked first, then the record's address.
    /// Whether the vault is locked plays no part.
    pub open spec fn refusal(&self, vault_found: Option<(Seq<u8>, u8)>) -> Option<VaultError> {
        if !self.authorized() {
            Some(VaultError::AuthorizationFailure)
        } else if !is_derived(self.vault.key, vault_found) {
            Some(VaultError::AddressMismatch)
        } else {
            None
        }
    }

    /// The accounts after a toggle has gone through: the lock is flipped and
    /// nothing else has changed.
    pub open spec fn settled(&self) -> ToggleLock {
        ToggleLock {
            program_id: self.program_id,
            vault_authority: self.vault_authority,
            vault: Account {
                key: self.vault.key,
                data: Vault {
                    vault_authority: self.vault.data.vault_authority,
                    locked: !self.vault.data.locked,
                },
            },
        }
    }

    /// The event of a toggle: it carries the state that the lock is left in.
    pub open spec fn event(&self) -> ToggleLockEvent {
        ToggleLockEvent {
            vault: self.vault.key,
            vault_authority: self.vault.data.vault_authority,
            locked: !self.vault.data.locked,
        }
    }

    /// Whether these accounts and what a toggle returned are the outcome of
    /// that toggle on the accounts `before`.
    pub open spec fn is_outcome(
        &self,
        r: Result<ToggleLockEvent, VaultError>,
        before: ToggleLock,
        vault_found: Option<(Seq<u8>, u8)>,
    ) -> bool {
        match before.refusal(vault_found) {
            Some(error) => r == Err::<ToggleLockEvent, VaultError>(error) && *self == before,
            None => r == Ok::<ToggleLockEvent, VaultError>(before.event()) && *self
                == before.settled(),
        }
    }
}

/// Flips the vault's lock, given the address that was derived for the vault's
/// state record.
///
/// The toggle is refused with `AuthorizationFailure` where the caller is not
/// the vault's authority, else with `AddressMismatch` where the record is not
/// at its address; a refused toggle changes nothing. Otherwise a locked vault
/// becomes unlocked and an unlocked one locked, whatever its state was.
pub fn toggle_lock_at(ctx: &mut ToggleLock, vault_found: Option<(Address, u8)>) -> (r: Result<
    ToggleLockEvent,
    VaultError,
>)
    ensures
        final(ctx).is_outcome(r, *old(ctx), found_view(vault_found)),
{
    if ctx.vault_authority.key != ctx.vault.data.vault_authority {
        return Err(VaultError::AuthorizationFailure);
    }
    if !matches_derived(&ctx.vault.key, &vault_found) {
        return Err(VaultError::AddressMismatch);
    }
    ctx.vault.data.locked = !ctx.vault.data.locked;
    Ok(
        ToggleLockEvent {
            vault: ctx.vault.key,
            vault_authority: ctx.vault.data.vault_authority,
            locked: ctx.vault.data.locked,
        },
    )
}

/// Flips the vault's lock. The address of the vault's state record is derived
/// from the authority that the record names; the rest is as in
/// [`toggle_lock_at`].
pub fn _toggle_lock(ctx: &mut ToggleLock) -> (r: Result<ToggleLockEvent, VaultError>)
    ensures
        final(ctx).is_outcome(
            r,
            *old(ctx),
            vault_pda(old(ctx).program_id, old(ctx).vault.data.vault_authority),
        ),
{
    let vault_found = find_vault_address(&ctx.program_id, &ctx.vault.data.vault_authority);
    toggle_lock_at(ctx, vault_found)
}

} // verus!
