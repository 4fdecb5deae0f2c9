//! The program that dispatches on its instruction's first byte.

use vstd::prelude::*;
use crate::account_info::AccountInfo;
use crate::error::ProgramError;
use crate::error::ProgramResult;
use crate::pubkey::Pubkey;
use crate::render::list_string;
use crate::render::list_text;

verus! {

/// The lines that the program logs. Empty data logs nothing; selector 0 and
/// selector 1 each log their line, which ends in the bytes after the selector;
/// any other selector logs that the call was invalid.
pub open spec fn program_log(instruction_data: Seq<u8>) -> Seq<Seq<char>> {
    if instruction_data.len() == 0 {
        seq![]
    } else if instruction_data[0] == 0 {
        seq!["first instruction is called. remaining data: "@ + list_text(instruction_data.skip(1))]
    } else if instruction_data[0] == 1 {
        seq!["second instruction is called. remaining data: "@ + list_text(
            instruction_data.skip(1),
        )]
    } else {
        seq!["invalid called"@]
    }
}

/// The program's result: success when the data starts with selector 0 or 1.
pub open spec fn program_result(instruction_data: Seq<u8>) -> ProgramResult {
    if instruction_data.len() > 0 && (instruction_data[0] == 0 || instruction_data[0] == 1) {
        Ok(())
    } else {
        Err(ProgramError::InvalidInstructionData)
    }
}

/// Runs the program: reads the first byte of `instruction_data` as a selector,
/// appends the selected instruction's line to `log`, and succeeds. Empty data
/// and unknown selectors fail with `InvalidInstructionData`.
pub fn process_instruction(
    _program_id: &Pubkey,
    _accounts: &[AccountInfo],
    instruction_data: &[u8],
    log: &mut Vec<String>,
) -> (result: ProgramResult)
    ensures
        result == program_result(instruction_data@),
        final(log).deep_view() == old(log).deep_view() + program_log(instruction_data@),
{
    if instruction_data.len() == 0 {
        return Err(ProgramError::InvalidInstructionData);
    }
    let (head, rest) = instruction_data.split_at(1);
    let selector = head[0];

    match selector {
        0 => {
            let mut line = String::from_str("first instruction is called. remaining data: ");
            line.append(list_string(rest).as_str());
            log.push(line);
        },
        1 => {
            let mut line = String::from_str("second instruction is called. remaining data: ");
            line.append(list_string(rest).as_str());
            log.push(line);
        },
        _ => {
            log.push(String::from_str("invalid called"));
            return Err(ProgramError::InvalidInstructionData);
        },
    }

    Ok(())
}

/// The program succeeds exactly when the data starts with selector 0 or
/// selector 1, and every failure is `InvalidInstructionData`.
pub proof fn lemma_result_follows_selector(instruction_data: Seq<u8>)
    ensures
        program_result(instruction_data) is Ok <==> instruction_data.len() > 0 && instruction_data[0]
            <= 1,
        program_result(instruction_data) is Err ==> program_result(instruction_data) == Err::<
            (),
            ProgramError,
        >(ProgramError::InvalidInstructionData),
{
}

/// The bytes after the selector change the logged line at most: the result is
/// that of the selector alone.
pub proof fn lemma_result_ignores_remaining_data(selector: u8, remaining: Seq<u8>)
    ensures
        program_result(seq![selector] + remaining) == program_result(seq![selector]),
{
    assert((seq![selector] + remaining)[0] == selector);
}

/// The program logs one line, or none when the data is empty; a successful call
/// has always logged its line.
pub proof fn lemma_one_line_unless_empty(instruction_data: Seq<u8>)
    ensures
        program_log(instruction_data).len() == (if instruction_data.len() == 0 {
            0nat
        } else {
            1nat
        }),
        program_result(instruction_data) is Ok ==> program_log(instruction_data).len() == 1,
{
}

} // verus!
