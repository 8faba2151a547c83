//! Program-derived addresses.
//!
//! An account that a program owns is located by an address derived from a list
//! of seeds and the program's own address. The derivation needs no secret: any
//! party that knows the seeds can repeat it.

use vstd::prelude::*;
use crate::address::Address;

verus! {

/// The address derived from `seeds` for the program at `program_id`, together
/// with the bump seed that the search settled on; `None` where the search finds
/// no address.
pub uninterp spec fn program_address(seeds: Seq<Seq<u8>>, program_id: Seq<u8>) -> Option<
    (Seq<u8>, u8),
>;

/// The seeds of a derivation as sequences of bytes.
pub open spec fn seeds_view(seeds: Vec<Vec<u8>>) -> Seq<Seq<u8>> {
    Seq::new(seeds@.len(), |i: int| seeds@[i]@)
}

/// What a derivation found, with the address as its bytes.
pub open spec fn found_view(found: Option<(Address, u8)>) -> Option<(Seq<u8>, u8)> {
    match found {
        Some((address, bump)) => Some((address@, bump)),
        None => None,
    }
}

/// Calls `Pubkey::try_find_program_address`, which tries the bump seeds from
/// 255 downwards and returns the first address that lies off the curve, with
/// its bump seed. It returns `None` where no bump seed gives such an address,
/// where there are 16 seeds or more, and where a seed is longer than 32 bytes.
/// The result depends on the seeds and the program's address alone.
#[verifier::external_body]
pub(crate) fn try_find_program_address(seeds: &Vec<Vec<u8>>, program_id: &Address) -> (found:
    Option<(Address, u8)>)
    ensures
        found_view(found) == program_address(seeds_view(*seeds), program_id@),
{
    let parts: Vec<&[u8]> = seeds.iter().map(|seed| seed.as_slice()).collect();
    let program = anchor_lang::prelude::Pubkey::new_from_array(program_id.bytes);
    anchor_lang::prelude::Pubkey::try_find_program_address(&parts, &program).map(
        |(key, bump)| (Address { bytes: key.to_bytes() }, bump),
    )
}

/// Whether `key` is the address that a derivation found. Where none was found,
/// no key is.
pub open spec fn is_derived(key: Address, found: Option<(Seq<u8>, u8)>) -> bool {
    match found {
        Some((address, _)) => key@ == address,
        None => false,
    }
}

/// Tells whether `key` is the address that a derivation found.
pub fn matches_derived(key: &Address, found: &Option<(Address, u8)>) -> (r: bool)
    ensures
        r == is_derived(*key, found_view(*found)),
{
    match found {
        Some((address, _)) => {
            proof {
                key.lemma_view_injective(*address);
            }
            *key == *address
        },
        None => false,
    }
}

} // verus!
