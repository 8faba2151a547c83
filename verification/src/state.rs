//! The vault's state record and the addresses of its two accounts.

use vstd::prelude::*;
use vstd::slice::slice_to_vec;
use vstd::string::StringSliceAdditionalSpecFns;
use crate::address::Address;
use crate::pda::{found_view, program_address, seeds_view, try_find_program_address};

verus! {

/// The tag under which a vault's state record is addressed.
pub const VAULT_SEED: &'static str = "vault";

/// The tag under which a vault's holding account is addressed. It differs from
/// the tag of the state record: under one tag the record and the holding
/// account of an authority would share a single address.
pub const VAULT_ACCOUNT_SEED: &'static str = "vault_account";

/// What a vault records about itself. The lamports it guards are not part of
/// the record: they are the balance of the vault's holding account.
#[derive(Clone, Copy, Debug, PartialEq, Eq)]
pub struct Vault {
    /// The one identity that may withdraw and toggle the lock. No operation
    /// reassigns it.
    pub vault_authority: Address,
    /// While set, deposits and withdrawals are refused.
    pub locked: bool,
}

/// The seeds of an account that belongs to `authority`: a tag, then the
/// authority's address.
pub open spec fn tagged_seeds(tag: &str, authority: Address) -> Seq<Seq<u8>> {
    seq![tag.spec_bytes(), authority@]
}

/// The address of the state record of `authority`'s vault under the program at
/// `program_id`, with its bump seed.
pub open spec fn vault_pda(program_id: Address, authority: Address) -> Option<(Seq<u8>, u8)> {
    program_address(tagged_seeds(VAULT_SEED, authority), program_id@)
}

/// The address of the holding account of `authority`'s vault under the program
/// at `program_id`, with its bump seed.
pub open spec fn vault_account_pda(program_id: Address, authority: Address) -> Option<
    (Seq<u8>, u8),
> {
    program_address(tagged_seeds(VAULT_ACCOUNT_SEED, authority), program_id@)
}

fn derive_tagged(tag: &str, program_id: &Address, authority: &Address) -> (found: Option<
    (Address, u8),
>)
    ensures
        found_view(found) == program_address(tagged_seeds(tag, *authority), program_id@),
{
    let mut seeds: Vec<Vec<u8>> = Vec::new();
    seeds.push(slice_to_vec(tag.as_bytes()));
    seeds.push(authority.to_vec());
    assert(seeds_view(seeds) =~= tagged_seeds(tag, *authority));
    try_find_program_address(&seeds, program_id)
}

/// Derives the address of the state record of `authority`'s vault. Anyone who
/// knows the authority can do so.
pub fn find_vault_address(program_id: &Address, authority: &Address) -> (found: Option<
    (Address, u8),
>)
    ensures
        found_view(found) == vault_pda(*program_id, *authority),
{
    derive_tagged(VAULT_SEED, program_id, authority)
}

/// Derives the address of the holding account of `authority`'s vault.
pub fn find_vault_account_address(program_id: &Address, authority: &Address) -> (found: Option<
    (Address, u8),
>)
    ensures
        found_view(found) == vault_account_pda(*program_id, *authority),
{
    derive_tagged(VAULT_ACCOUNT_SEED, program_id, authority)
}

} // verus!
