//! The cluster's clock.

use vstd::prelude::*;
use anchor_lang::solana_program::clock::Clock;
use anchor_lang::solana_program::program_error::ProgramError;
use anchor_lang::solana_program::sysvar::Sysvar;

verus! {

/// The runtime's error type, as the clock returns it.
#[verifier::external_type_specification]
#[verifier::external_body]
pub struct ExProgramError(anchor_lang::solana_program::program_error::ProgramError);

/// Calls `Clock::get`, which asks the runtime for the clock, and picks the
/// Unix timestamp from it. Nothing is assumed of the answer: the time differs
/// from call to call, and outside the runtime there is no clock to ask.
#[verifier::external_body]
pub(crate) fn unix_timestamp() -> (now: Result<i64, ProgramError>) {
    Clock::get().map(|clock| clock.unix_timestamp)
}

} // verus!
