use anchor_lang::prelude::Clock;
use anchor_lang::prelude::ProgramError;
use anchor_lang::solana_program::sysvar::Sysvar;
use vstd::prelude::*;

verus! {

/// `solana_pubkey::Pubkey`, the 32-byte identity of an account. The vault never looks
/// inside one: it copies identities from the accounts it is handed into the records,
/// transfer requests and events it produces.
#[verifier::external_type_specification]
#[verifier::external_body]
pub struct ExPubkey(anchor_lang::prelude::Pubkey);

/// `solana_program_error::ProgramError`, the runtime's own failure. The vault never
/// produces or inspects one: it hands it on to the caller as it came.
#[verifier::external_type_specification]
#[verifier::external_body]
pub struct ExProgramError(anchor_lang::prelude::ProgramError);

/// Reads the cluster time, in seconds since the Unix epoch, with `Clock::get` of
/// `solana_sysvar` and takes the field `unix_timestamp` of the answer. Nothing is
/// claimed of the outcome: the time is whatever the runtime says, and outside a
/// running program the call fails.
#[verifier::external_body]
pub(crate) fn unix_timestamp() -> (now: Result<i64, ProgramError>) {
    Clock::get().map(|clock| clock.unix_timestamp)
}

} // verus!
