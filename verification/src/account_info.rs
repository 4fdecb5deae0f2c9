//! The accounts that come with an instruction.

use vstd::prelude::*;
use crate::error::ProgramError;
use crate::pubkey::Pubkey;

verus! {

/// What a program reads of one account.
#[derive(Clone, Copy, Debug, PartialEq, Eq, Hash)]
pub struct AccountInfo {
    /// The account's address.
    pub key: Pubkey,
    /// Whether the account signed the transaction.
    pub is_signer: bool,
    /// Whether the program may change the account.
    pub is_writable: bool,
}

/// Returns the account at `position` and moves `position` past it, or fails
/// with `NotEnoughAccountKeys`, leaving `position` as it was, when no account
/// is left there.
pub fn next_account_info<'a>(accounts: &'a [AccountInfo], position: &mut usize) -> (next: Result<
    &'a AccountInfo,
    ProgramError,
>)
    ensures
        *old(position) < accounts@.len() ==> {
            &&& next == Ok::<&AccountInfo, ProgramError>(&accounts@[*old(position) as int])
            &&& *final(position) == *old(position) + 1
        },
        *old(position) >= accounts@.len() ==> {
            &&& next == Err::<&AccountInfo, ProgramError>(ProgramError::NotEnoughAccountKeys)
            &&& *final(position) == *old(position)
        },
{
    if *position < accounts.len() {
        let account = &accounts[*position];
        *position = *position + 1;
        Ok(account)
    } else {
        Err(ProgramError::NotEnoughAccountKeys)
    }
}

} // verus!
