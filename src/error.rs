use vstd::prelude::*;


verus! {

/// The error type of every decode: `ProgramError` of solana-program-error, whose
/// variants carry plain `u32` payloads only, so Verus may read them.
#[verifier::external_type_specification]
pub struct ExProgramError(solana_program_error::ProgramError);

/// The one error that a decode reports: the range asked for is not wholly in the
/// buffer, or a boolean byte is neither 0 nor 1.
pub open spec fn decode_error() -> solana_program_error::ProgramError {
    solana_program_error::ProgramError::InvalidInstructionData
}

} // verus!
