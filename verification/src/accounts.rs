//! The program that reports its first two accounts.

use vstd::prelude::*;
use crate::account_info::next_account_info;
use crate::account_info::AccountInfo;
use crate::error::ProgramError;
use crate::error::ProgramResult;
use crate::pubkey::base58_text;
use crate::pubkey::Pubkey;
use crate::render::bool_str;
use crate::render::bool_text;

verus! {

/// The line that reports one account: a label, the account's key as text, and
/// its two flags.
pub open spec fn account_line_text(
    label: Seq<char>,
    key_text: Seq<char>,
    is_signer: bool,
    is_writable: bool,
) -> Seq<char> {
    label + ": "@ + key_text + " isSigner: "@ + bool_text(is_signer) + ", isWritable: "@
        + bool_text(is_writable)
}

/// The line that the program logs for `account` under `label`.
pub open spec fn account_report(label: Seq<char>, account: AccountInfo) -> Seq<char> {
    account_line_text(label, base58_text(account.key@), account.is_signer, account.is_writable)
}

/// The lines that the program logs: one for each of the first two accounts, in
/// their order.
pub open spec fn program_log(accounts: Seq<AccountInfo>) -> Seq<Seq<char>> {
    if accounts.len() == 0 {
        seq![]
    } else if accounts.len() == 1 {
        seq![account_report("first"@, accounts[0])]
    } else {
        seq![account_report("first"@, accounts[0]), account_report("second"@, accounts[1])]
    }
}

/// The program's result: success when it was given two accounts or more.
pub open spec fn program_result(accounts: Seq<AccountInfo>) -> ProgramResult {
    if accounts.len() >= 2 {
        Ok(())
    } else {
        Err(ProgramError::NotEnoughAccountKeys)
    }
}

/// Builds the line that reports one account from the text of its key.
pub fn account_line(label: &str, key_text: &str, is_signer: bool, is_writable: bool) -> (line:
    String)
    ensures
        line@ == account_line_text(label@, key_text@, is_signer, is_writable),
{
    let mut line = String::from_str(label);
    line.append(": ");
    line.append(key_text);
    line.append(" isSigner: ");
    line.append(bool_str(is_signer));
    line.append(", isWritable: ");
    line.append(bool_str(is_writable));
    line
}

/// Runs the program: appends to `log` a line for the first account and a line
/// for the second, and succeeds. With fewer than two accounts it fails with
/// `NotEnoughAccountKeys`, after the line of the one account that was there.
pub fn process_instruction(
    _program_id: &Pubkey,
    accounts: &[AccountInfo],
    _instruction_data: &[u8],
    log: &mut Vec<String>,
) -> (result: ProgramResult)
    ensures
        result == program_result(accounts@),
        final(log).deep_view() == old(log).deep_view() + program_log(accounts@),
{
    let mut position: usize = 0;

    let first_account_info = next_account_info(accounts, &mut position)?;
    let first_key = first_account_info.key.to_string();
    log.push(
        account_line(
            "first",
            first_key.as_str(),
            first_account_info.is_signer,
            first_account_info.is_writable,
        ),
    );

    let second_account_info = next_account_info(accounts, &mut position)?;
    let second_key = second_account_info.key.to_string();
    log.push(
        account_line(
            "second",
            second_key.as_str(),
            second_account_info.is_signer,
            second_account_info.is_writable,
        ),
    );

    Ok(())
}

/// Given exactly two accounts the program succeeds, having logged the first
/// and then the second, each with its own key and flags.
pub proof fn lemma_two_accounts_in_order(first: AccountInfo, second: AccountInfo)
    ensures
        program_result(seq![first, second]) == Ok::<(), ProgramError>(()),
        program_log(seq![first, second]) == seq![
            account_report("first"@, first),
            account_report("second"@, second),
        ],
{
}

/// Accounts after the second change neither the result nor the log.
pub proof fn lemma_later_accounts_ignored(
    first: AccountInfo,
    second: AccountInfo,
    later: Seq<AccountInfo>,
)
    ensures
        program_result(seq![first, second] + later) == program_result(seq![first, second]),
        program_log(seq![first, second] + later) == program_log(seq![first, second]),
{
    let all = seq![first, second] + later;
    assert(all[0] == first);
    assert(all[1] == second);
}

/// The program logs one line for each account it read, two at most, and
/// succeeds exactly when it logged two.
pub proof fn lemma_success_iff_two_lines(accounts: Seq<AccountInfo>)
    ensures
        program_log(accounts).len() == (if accounts.len() < 2 {
            accounts.len()
        } else {
            2nat
        }),
        program_result(accounts) is Ok <==> program_log(accounts).len() == 2,
{
}

} // verus!
