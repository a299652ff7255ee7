use solana_program::program_error::ProgramError;
use vstd::prelude::*;

verus! {

/// The errors of this program's own rules.
#[derive(Debug, Copy, Clone, PartialEq, Eq, Structural)]
pub enum BankError {
    /// The instruction buffer is malformed: a bad tag, or a truncated or
    /// undecodable field.
    InvalidInstruction,
    /// An account holds too few lamports for its size to be rent-exempt.
    NotRentExempt,
}

/// The custom error code under which `e` reaches the host.
pub open spec fn error_code(e: BankError) -> u32 {
    match e {
        BankError::InvalidInstruction => 0,
        BankError::NotRentExempt => 1,
    }
}

impl BankError {
    /// The custom error code under which this error reaches the host.
    pub fn code(self) -> (r: u32)
        ensures
            r == error_code(self),
    {
        match self {
            BankError::InvalidInstruction => 0,
            BankError::NotRentExempt => 1,
        }
    }
}

impl From<BankError> for ProgramError {
    fn from(e: BankError) -> (r: ProgramError)
        ensures
            r == ProgramError::Custom(error_code(e)),
    {
        ProgramError::Custom(e.code())
    }
}

impl vstd::std_specs::convert::FromSpecImpl<BankError> for ProgramError {
    open spec fn obeys_from_spec() -> bool {
        true
    }

    open spec fn from_spec(e: BankError) -> ProgramError {
        ProgramError::Custom(error_code(e))
    }
}

} // verus!
