use vstd::prelude::*;
use solana_program::program_error::ProgramError;

verus! {

#[verifier::external_type_specification]
pub struct ExProgramError(ProgramError);

/// Why a swap did not complete.
#[derive(Debug, PartialEq, Eq)]
pub enum SwapError {
    /// The fee rate lies outside `0..=100`.
    InvalidArgument,
    /// Fewer accounts were supplied than the swap needs.
    AccountMissing,
    /// A token-ledger call failed; its error is passed on unchanged.
    Ledger(ProgramError),
}

} // verus!
