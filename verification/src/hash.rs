//! SHA-256 digests, computed by the runtime's hasher.

use vstd::prelude::*;

verus! {

/// The SHA-256 digest of `data`.
pub uninterp spec fn sha256(data: Seq<u8>) -> Seq<u8>;

/// Calls `anchor_lang::solana_program::hash::hash`, which feeds `data` to a
/// SHA-256 hasher and returns the 32-byte digest. Nothing is assumed of the
/// digest but that it is the one `sha256` names for these bytes.
#[verifier::external_body]
pub(crate) fn hash(data: &[u8]) -> (digest: [u8; 32])
    ensures
        digest@ == sha256(data@),
{
    anchor_lang::solana_program::hash::hash(data).to_bytes()
}

} // verus!
