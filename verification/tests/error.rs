use timelock_escrow::error::{CodecError, EscrowError, ProgramFailure, TokenError};

#[test]
fn token_errors_are_numbered_by_position() {
    assert_eq!(ProgramFailure::from(TokenError::NotRentExempt), ProgramFailure::Custom(0));
    assert_eq!(ProgramFailure::from(TokenError::PublicKeyMismatch), ProgramFailure::Custom(1));
    assert_eq!(ProgramFailure::from(TokenError::EscrowMismatch), ProgramFailure::Custom(2));
}

#[test]
fn escrow_error_is_number_zero() {
    assert_eq!(
        ProgramFailure::from(EscrowError::WithdrawTimeLimitNotExceeded),
        ProgramFailure::Custom(0)
    );
    let converted: ProgramFailure = EscrowError::WithdrawTimeLimitNotExceeded.into();
    assert_eq!(converted, ProgramFailure::Custom(0));
}

#[test]
fn codec_errors_become_io_failures() {
    assert_eq!(ProgramFailure::from(CodecError::UnexpectedLength), ProgramFailure::BorshIoError);
    assert_eq!(ProgramFailure::from(CodecError::NotAllBytesRead), ProgramFailure::BorshIoError);
    assert_eq!(ProgramFailure::from(CodecError::WriteZero), ProgramFailure::BorshIoError);
}

#[test]
fn error_messages() {
    assert_eq!(TokenError::NotRentExempt.message(), "Lamport balance below rent-exempt threshold");
    assert_eq!(TokenError::PublicKeyMismatch.message(), "Public key mismatched");
    assert_eq!(TokenError::EscrowMismatch.message(), "Account not associated with Escrow");
    assert_eq!(EscrowError::WithdrawTimeLimitNotExceeded.message(), "24 hours not passed yet!");
}

#[test]
fn host_failures_compare_by_what_they_carry() {
    let a = ProgramFailure::Host(solana_program::program_error::ProgramError::UnsupportedSysvar);
    let b = ProgramFailure::Host(solana_program::program_error::ProgramError::UnsupportedSysvar);
    let c = ProgramFailure::Host(solana_program::program_error::ProgramError::InvalidArgument);
    assert_eq!(a, b);
    assert_ne!(a, c);
    assert_ne!(c, ProgramFailure::InvalidArgument);
}
