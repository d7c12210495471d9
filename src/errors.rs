use vstd::prelude::*;

verus! {

/// The protocol's own failures, reported to callers as custom error codes.
#[derive(Debug, Clone, Copy, PartialEq, Eq, Structural)]
pub enum ForwardError {
    DestinationNotInitialised,
    DestinationIsAnAta,
    QuarantineIsAnAta,
    InvalidDestination,
    InvalidTokenSource,
    InvalidTokenDestination,
    ForwardAlreadyExists,
    InvalidForwardAddress,
    QuarantineNotInitialised,
    InvalidAuthority,
    InvalidNumberOfAccounts,
    OverflowError,
    UnderflowError,
}

impl ForwardError {
    /// The custom error code under which the host reports this failure.
    pub open spec fn code_spec(self) -> u32 {
        match self {
            ForwardError::DestinationNotInitialised => 0,
            ForwardError::DestinationIsAnAta => 1,
            ForwardError::QuarantineIsAnAta => 2,
            ForwardError::InvalidDestination => 3,
            ForwardError::InvalidTokenSource => 4,
            ForwardError::InvalidTokenDestination => 5,
            ForwardError::ForwardAlreadyExists => 6,
            ForwardError::InvalidForwardAddress => 7,
            ForwardError::QuarantineNotInitialised => 8,
            ForwardError::InvalidAuthority => 9,
            ForwardError::InvalidNumberOfAccounts => 10,
            ForwardError::OverflowError => 11,
            ForwardError::UnderflowError => 12,
        }
    }

    pub fn code(&self) -> (r: u32)
        ensures
            r == self.code_spec(),
    {
        match self {
            ForwardError::DestinationNotInitialised => 0,
            ForwardError::DestinationIsAnAta => 1,
            ForwardError::QuarantineIsAnAta => 2,
            ForwardError::InvalidDestination => 3,
            ForwardError::InvalidTokenSource => 4,
            ForwardError::InvalidTokenDestination => 5,
            ForwardError::ForwardAlreadyExists => 6,
            ForwardError::InvalidForwardAddress => 7,
            ForwardError::QuarantineNotInitialised => 8,
            ForwardError::InvalidAuthority => 9,
            ForwardError::InvalidNumberOfAccounts => 10,
            ForwardError::OverflowError => 11,
            ForwardError::UnderflowError => 12,
        }
    }

    /// A short human-readable description of the failure.
    pub fn message(&self) -> &'static str {
        match self {
            ForwardError::DestinationNotInitialised => "Destination not initialised",
            ForwardError::DestinationIsAnAta => "Destination should not be an ATA",
            ForwardError::QuarantineIsAnAta => "Quarantine should not be an ATA",
            ForwardError::InvalidDestination => "Invalid destination",
            ForwardError::InvalidTokenSource => "Invalid token source",
            ForwardError::InvalidTokenDestination => "Invalid token destination",
            ForwardError::ForwardAlreadyExists => "Forward account already exists",
            ForwardError::InvalidForwardAddress => "Invalid forward address",
            ForwardError::QuarantineNotInitialised => "Quarantine not initialised",
            ForwardError::InvalidAuthority => "Invalid Authority",
            ForwardError::InvalidNumberOfAccounts => "Invalid number of accounts",
            ForwardError::OverflowError => "Overflow error",
            ForwardError::UnderflowError => "Underflow error",
        }
    }
}

/// Every way a call can fail: the protocol's own errors, and the host's
/// generic failures that the protocol raises itself.
#[derive(Debug, Clone, Copy, PartialEq, Eq, Structural)]
pub enum ProgramFailure {
    Forward(ForwardError),
    /// A program account is not the one the call requires.
    IncorrectProgramId,
    /// An account that has to sign did not.
    MissingRequiredSignature,
    /// Account data does not have the expected layout.
    InvalidAccountData,
    /// Account data has the expected layout but is not initialised.
    UninitializedAccount,
    /// The account list is shorter than the call needs.
    NotEnoughAccountKeys,
    /// The instruction data does not decode.
    InvalidInstructionData,
}

/// `Ok(())` when `condition` holds, otherwise the given failure.
pub fn assert_that(condition: bool, error: ProgramFailure) -> (r: Result<(), ProgramFailure>)
    ensures
        r == (if condition { Ok::<(), ProgramFailure>(()) } else { Err(error) }),
{
    if condition {
        Ok(())
    } else {
        Err(error)
    }
}

} // verus!
