use anchor_lang::prelude::Clock;
use anchor_lang::prelude::ProgramError;
use anchor_lang::solana_program::sysvar::Sysvar;
use vstd::prelude::*;

verus! {

/// `ProgramError`, the error of reading a sysvar, carried opaquely.
#[verifier::external_type_specification]
#[verifier::external_body]
pub struct ExProgramError(ProgramError);

/// Reads the cluster's current unix time with `Clock::get` (the clock sysvar).
/// Nothing is promised of the time that comes back, nor of whether the read succeeds:
/// off the cluster it fails with `UnsupportedSysvar`.
#[verifier::external_body]
pub(crate) fn clock_unix_timestamp() -> (r: Result<i64, ProgramError>) {
    match Clock::get() {
        Ok(clock) => Ok(clock.unix_timestamp),
        Err(e) => Err(e),
    }
}

} // verus!
