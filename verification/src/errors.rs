//! Why a vault operation is refused.

use vstd::prelude::*;

verus! {

/// The reasons for which a vault operation fails. A failed operation changes
/// nothing.
#[derive(Clone, Copy, Debug, PartialEq, Eq, Structural)]
pub enum VaultError {
    /// The vault is locked.
    VaultLocked,
    /// The account that is to pay holds less than the amount.
    InsufficientBalance,
    /// The caller is not the vault's authority.
    AuthorizationFailure,
    /// An account that the caller supplied is not at the address derived for
    /// it.
    AddressMismatch,
}

} // verus!
