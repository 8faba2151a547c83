//! Instructions for the system program, which owns every signer's account and
//! alone may move lamports out of one.

use vstd::prelude::*;
use vstd::bytes::spec_u64_to_le_bytes;
use crate::address::Address;

verus! {

/// How an instruction uses one account.
#[derive(Clone, Copy, Debug, PartialEq, Eq)]
pub struct AccountMeta {
    pub pubkey: Address,
    pub is_signer: bool,
    pub is_writable: bool,
}

/// An instruction for another program: the program's address, the accounts it
/// is given, and the data it is to interpret.
#[derive(Clone, Debug, PartialEq, Eq)]
pub struct Instruction {
    pub program_id: Address,
    pub accounts: Vec<AccountMeta>,
    pub data: Vec<u8>,
}

/// The address of the system program: 32 zero bytes.
pub open spec fn system_program_id() -> Seq<u8> {
    Seq::new(32, |i: int| 0u8)
}

/// The data of a transfer instruction: the instruction's index, 2, as four
/// bytes, then the amount as eight bytes, both little-endian.
pub open spec fn transfer_data(lamports: u64) -> Seq<u8> {
    seq![2u8, 0u8, 0u8, 0u8] + spec_u64_to_le_bytes(lamports)
}

/// Whether `ix` asks the system program to move `lamports` from `from`, which
/// signs, to `to`.
pub open spec fn is_transfer(ix: Instruction, from: Address, to: Address, lamports: u64) -> bool {
    &&& ix.program_id@ == system_program_id()
    &&& ix.accounts@ == seq![
        AccountMeta { pubkey: from, is_signer: true, is_writable: true },
        AccountMeta { pubkey: to, is_signer: false, is_writable: true },
    ]
    &&& ix.data@ == transfer_data(lamports)
}

/// Calls `anchor_lang::solana_program::system_instruction::transfer` and copies
/// the instruction field by field. That function addresses the instruction to
/// the system program, lists `from` as a writable signer and `to` as writable,
/// and encodes `SystemInstruction::Transfer { lamports }` with bincode, which
/// writes the variant's index as a 32-bit integer and the amount as a 64-bit
/// one, both little-endian.
#[verifier::external_body]
pub(crate) fn transfer(from: &Address, to: &Address, lamports: u64) -> (ix: Instruction)
    ensures
        is_transfer(ix, *from, *to, lamports),
{
    let source = anchor_lang::prelude::Pubkey::new_from_array(from.bytes);
    let target = anchor_lang::prelude::Pubkey::new_from_array(to.bytes);
    let ix = anchor_lang::solana_program::system_instruction::transfer(&source, &target, lamports);
    Instruction {
        program_id: Address { bytes: ix.program_id.to_bytes() },
        accounts: ix.accounts.iter().map(|meta| AccountMeta {
            pubkey: Address { bytes: meta.pubkey.to_bytes() },
            is_signer: meta.is_signer,
            is_writable: meta.is_writable,
        }).collect(),
        data: ix.data,
    }
}

} // verus!
