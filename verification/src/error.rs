//! The errors a program returns to the runtime.

use vstd::prelude::*;

verus! {

/// Why a program failed.
#[derive(Clone, Copy, Debug, PartialEq, Eq, Hash, Structural)]
pub enum ProgramError {
    /// The instruction's bytes are empty or name no known instruction.
    InvalidInstructionData,
    /// The instruction came with fewer accounts than the program reads.
    NotEnoughAccountKeys,
}

/// What a program hands back to the runtime.
pub type ProgramResult = Result<(), ProgramError>;

} // verus!
