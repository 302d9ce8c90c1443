//! The errors of the escrow program and their classes.

use vstd::prelude::*;

verus! {

/// Why an instruction was rejected.
#[derive(Clone, Copy, Debug, PartialEq, Eq, Structural)]
pub enum EscrowError {
    /// The instruction payload is empty, truncated, or carries an unknown tag.
    InvalidInstruction,
    /// The account list ended before the handler had all its accounts.
    NotEnoughAccounts,
    /// The party that drives the phase did not sign the transaction.
    MissingSignature,
    /// An account is not owned by the token program, or the token program
    /// handle names another program.
    WrongProgram,
    /// The escrow record account does not hold enough to be rent-exempt.
    NotRentExempt,
    /// The rent account is not the rent sysvar, its contents cannot be read,
    /// or its terms are outside the range for which exemption is defined.
    InvalidRentOracle,
    /// The storage of an escrow record or of a token account is malformed.
    InvalidAccountData,
    /// The escrow record is already live.
    AlreadyInitialized,
    /// The escrow record is not live, or the accounts do not match its terms.
    ProtocolViolation,
    /// No authority can be derived for this program.
    AuthorityUnavailable,
}

/// The classes into which the errors fall.
#[derive(Clone, Copy, Debug, PartialEq, Eq, Structural)]
pub enum ErrorClass {
    /// A required signature is missing.
    Authorization,
    /// An account belongs to the wrong program.
    Ownership,
    /// The escrow record is in the wrong state for the request.
    State,
    /// Rent exemption is not established.
    Resource,
    /// The request or stored data is malformed.
    Encoding,
    /// A facility outside the program failed.
    Collaborator,
}

impl EscrowError {
    /// The class of this error.
    pub open spec fn class_spec(self) -> ErrorClass {
        match self {
            EscrowError::InvalidInstruction => ErrorClass::Encoding,
            EscrowError::NotEnoughAccounts => ErrorClass::Encoding,
            EscrowError::InvalidAccountData => ErrorClass::Encoding,
            EscrowError::MissingSignature => ErrorClass::Authorization,
            EscrowError::WrongProgram => ErrorClass::Ownership,
            EscrowError::NotRentExempt => ErrorClass::Resource,
            EscrowError::InvalidRentOracle => ErrorClass::Resource,
            EscrowError::AlreadyInitialized => ErrorClass::State,
            EscrowError::ProtocolViolation => ErrorClass::State,
            EscrowError::AuthorityUnavailable => ErrorClass::Collaborator,
        }
    }

    /// The class of this error.
    #[verifier::when_used_as_spec(class_spec)]
    pub fn class(self) -> (c: ErrorClass)
        ensures
            c == self.class_spec(),
    {
        match self {
            EscrowError::InvalidInstruction => ErrorClass::Encoding,
            EscrowError::NotEnoughAccounts => ErrorClass::Encoding,
            EscrowError::InvalidAccountData => ErrorClass::Encoding,
            EscrowError::MissingSignature => ErrorClass::Authorization,
            EscrowError::WrongProgram => ErrorClass::Ownership,
            EscrowError::NotRentExempt => ErrorClass::Resource,
            EscrowError::InvalidRentOracle => ErrorClass::Resource,
            EscrowError::AlreadyInitialized => ErrorClass::State,
            EscrowError::ProtocolViolation => ErrorClass::State,
            EscrowError::AuthorityUnavailable => ErrorClass::Collaborator,
        }
    }
}

} // verus!
