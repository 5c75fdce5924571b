//! Error types of the escrow program and their numbering.

use vstd::prelude::*;
use vstd::std_specs::convert::FromSpecImpl;

verus! {

/// The host runtime's own error type. The program never looks inside one: it
/// only hands on what a host call returned.
#[verifier::external_type_specification]
#[verifier::external_body]
pub struct ExHostError(solana_program::program_error::ProgramError);

/// Errors of the token escrow family.
#[derive(Clone, Copy, Debug, PartialEq, Eq, Structural)]
pub enum TokenError {
    /// Lamport balance below rent-exempt threshold.
    NotRentExempt,
    /// Public key mismatched.
    PublicKeyMismatch,
    /// Account not associated with the escrow.
    EscrowMismatch,
}

/// Errors of the escrow time lock.
#[derive(Clone, Copy, Debug, PartialEq, Eq, Structural)]
pub enum EscrowError {
    /// 24 hours have not passed yet.
    WithdrawTimeLimitNotExceeded,
}

/// Why decoding a fixed-layout value from a byte buffer failed.
#[derive(Clone, Copy, Debug, PartialEq, Eq, Structural)]
pub enum CodecError {
    /// The buffer ends before the last field does.
    UnexpectedLength,
    /// Bytes are left over after the last field.
    NotAllBytesRead,
    /// The buffer written to is full before the value is written out.
    WriteZero,
}

/// Reasons a transaction handled by the program fails.
///
/// The unit variants are the host's standard failures that the program raises
/// itself. `Custom` carries a program-specific number. `Host` carries a failure
/// that a call into the host returned, unchanged.
#[derive(Debug, PartialEq, Eq)]
pub enum ProgramFailure {
    /// A program-specific error number.
    Custom(u32),
    /// An argument is invalid.
    InvalidArgument,
    /// The instruction data do not decode.
    InvalidInstructionData,
    /// An account's key or data are not what the instruction requires.
    InvalidAccountData,
    /// A program account is not the expected program.
    IncorrectProgramId,
    /// An account that must sign did not.
    MissingRequiredSignature,
    /// An account that must hold a record holds no data.
    UninitializedAccount,
    /// The instruction names fewer accounts than it needs.
    NotEnoughAccountKeys,
    /// The seeds give no valid program-derived address.
    InvalidSeeds,
    /// A record does not fit its buffer, or a buffer does not hold a record.
    BorshIoError,
    /// The account presented as receiver is not the recorded one.
    IllegalOwner,
    /// A failure handed on from the host.
    Host(solana_program::program_error::ProgramError),
}

impl TokenError {
    /// The ordinal position of the variant, which is its custom error number.
    pub open spec fn code(self) -> u32 {
        match self {
            TokenError::NotRentExempt => 0,
            TokenError::PublicKeyMismatch => 1,
            TokenError::EscrowMismatch => 2,
        }
    }

    /// What the error says.
    pub open spec fn text(self) -> Seq<char> {
        match self {
            TokenError::NotRentExempt => "Lamport balance below rent-exempt threshold"@,
            TokenError::PublicKeyMismatch => "Public key mismatched"@,
            TokenError::EscrowMismatch => "Account not associated with Escrow"@,
        }
    }

    /// What the error says.
    pub fn message(&self) -> (msg: &'static str)
        ensures
            msg@ == self.text(),
    {
        match self {
            TokenError::NotRentExempt => "Lamport balance below rent-exempt threshold",
            TokenError::PublicKeyMismatch => "Public key mismatched",
            TokenError::EscrowMismatch => "Account not associated with Escrow",
        }
    }
}

impl EscrowError {
    /// The ordinal position of the variant, which is its custom error number.
    pub open spec fn code(self) -> u32 {
        match self {
            EscrowError::WithdrawTimeLimitNotExceeded => 0,
        }
    }

    /// What the error says.
    pub open spec fn text(self) -> Seq<char> {
        match self {
            EscrowError::WithdrawTimeLimitNotExceeded => "24 hours not passed yet!"@,
        }
    }

    /// What the error says.
    pub fn message(&self) -> (msg: &'static str)
        ensures
            msg@ == self.text(),
    {
        match self {
            EscrowError::WithdrawTimeLimitNotExceeded => "24 hours not passed yet!",
        }
    }
}

impl From<TokenError> for ProgramFailure {
    fn from(e: TokenError) -> (err: ProgramFailure) {
        match e {
            TokenError::NotRentExempt => ProgramFailure::Custom(0),
            TokenError::PublicKeyMismatch => ProgramFailure::Custom(1),
            TokenError::EscrowMismatch => ProgramFailure::Custom(2),
        }
    }
}

impl FromSpecImpl<TokenError> for ProgramFailure {
    open spec fn obeys_from_spec() -> bool {
        true
    }

    open spec fn from_spec(e: TokenError) -> ProgramFailure {
        ProgramFailure::Custom(e.code())
    }
}

impl From<EscrowError> for ProgramFailure {
    fn from(e: EscrowError) -> (err: ProgramFailure) {
        match e {
            EscrowError::WithdrawTimeLimitNotExceeded => ProgramFailure::Custom(0),
        }
    }
}

impl FromSpecImpl<EscrowError> for ProgramFailure {
    open spec fn obeys_from_spec() -> bool {
        true
    }

    open spec fn from_spec(e: EscrowError) -> ProgramFailure {
        ProgramFailure::Custom(e.code())
    }
}

impl From<CodecError> for ProgramFailure {
    fn from(e: CodecError) -> (err: ProgramFailure) {
        ProgramFailure::BorshIoError
    }
}

impl FromSpecImpl<CodecError> for ProgramFailure {
    open spec fn obeys_from_spec() -> bool {
        true
    }

    open spec fn from_spec(e: CodecError) -> ProgramFailure {
        ProgramFailure::BorshIoError
    }
}

} // verus!
