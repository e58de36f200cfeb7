use vstd::prelude::*;
use anchor_lang::solana_program::clock::Clock;
use anchor_lang::solana_program::program_error::ProgramError;
use anchor_lang::solana_program::sysvar::Sysvar;

verus! {

/// The runtime's error type, carried through opaquely.
#[verifier::external_type_specification]
#[verifier::external_body]
pub struct ExProgramError(ProgramError);

/// Reads the clock sysvar with `Clock::get` and gives its `unix_timestamp`.
/// Nothing is claimed of the value, nor of when the call fails: both come from
/// the runtime (off-chain, solana-program's default stubs make it fail).
#[verifier::external_body]
pub(crate) fn clock_unix_timestamp() -> (r: Result<i64, ProgramError>) {
    Clock::get().map(|clock| clock.unix_timestamp)
}

} // verus!
