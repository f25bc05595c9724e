//! The transfer hook: hooks are disabled, so every transfer is allowed.
use vstd::prelude::*;
use crate::error::ProgramError;
use crate::processor::AccountSnapshot;
use crate::pubkey::Pubkey;

verus! {

/// Handles a transfer hook call: allows the transfer, whatever the
/// accounts.
pub fn process_transfer_hook(program_id: &Pubkey, accounts: &[AccountSnapshot]) -> (r: Result<
    (),
    ProgramError,
>)
    ensures
        r is Ok,
{
    Ok(())
}

} // verus!
