use vstd::prelude::*;

verus! {

/// Failures specific to the bridge program.
#[derive(Debug, Clone, Copy, PartialEq, Eq, Structural)]
pub enum GhostError {
    InvalidInstruction,
    AccountSerialization,
    AccountDeserialization,
    UnauthorizedAdmin,
    ValidatorExists,
    ValidatorLimit,
    MissingSigner,
    UnauthorizedValidator,
    IncorrectProgramId,
    GhostExists,
    GhostMismatch,
    InvalidState,
}

/// Errors surfaced by an instruction: a bridge error, or one of the generic
/// conditions of the account runtime.
#[derive(Debug, Clone, Copy, PartialEq, Eq, Structural)]
pub enum ProgramError {
    Custom(GhostError),
    InvalidInstructionData,
    InvalidAccountData,
    AccountAlreadyInitialized,
    InsufficientFunds,
    NotEnoughAccountKeys,
    ArithmeticOverflow,
}

impl From<GhostError> for ProgramError {
    fn from(value: GhostError) -> (r: ProgramError)
        ensures
            r == ProgramError::Custom(value),
    {
        ProgramError::Custom(value)
    }
}

impl vstd::std_specs::convert::FromSpecImpl<GhostError> for ProgramError {
    open spec fn obeys_from_spec() -> bool {
        true
    }

    open spec fn from_spec(v: GhostError) -> ProgramError {
        ProgramError::Custom(v)
    }
}

} // verus!
