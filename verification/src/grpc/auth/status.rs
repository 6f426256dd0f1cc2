//! The errors of the service and the status codes they map to.

use crate::zkp::error::Error;
use vstd::prelude::*;
use vstd::string::StringExecFns;

verus! {

/// The status codes of the remote interface.
#[derive(Clone, Copy, Debug, PartialEq, Eq, Structural)]
pub enum Code {
    InvalidArgument,
    NotFound,
    AlreadyExists,
    Unauthenticated,
    Internal,
}

/// Why an operation of the service failed.
#[derive(Clone, Copy, Debug, PartialEq, Eq, Structural)]
pub enum AuthError {
    /// Validation: the username is empty.
    UsernameRequired,
    /// Validation: the request carries no signature.
    SignatureRequired,
    /// Validation: the signature carries no group.
    GroupRequired,
    /// Validation: the request carries no commitment.
    CommitmentRequired,
    /// Validation: the request carries no solution.
    SolutionRequired,
    /// Validation: the verifier's identifier is no UUID.
    InvalidVerifierId,
    /// Validation: the session's identifier is no UUID.
    InvalidSessionId,
    /// Conflict: the username is registered already.
    UsernameExists,
    /// Not found: no signature is registered under the username.
    UsernameNotFound,
    /// Not found: no verifier is pending under the identifier; it never was,
    /// or it has been used.
    VerifierNotFound,
    /// Authentication failure: the verifier rejected the solution.
    AuthenticationFailed,
    /// Authentication failure: no session is open under the identifier.
    NotAuthenticated,
    /// Internal: no verifier could be made.
    Internal,
}

/// The status code of each error.
pub open spec fn code_of(error: AuthError) -> Code {
    match error {
        AuthError::UsernameRequired => Code::InvalidArgument,
        AuthError::SignatureRequired => Code::InvalidArgument,
        AuthError::GroupRequired => Code::InvalidArgument,
        AuthError::CommitmentRequired => Code::InvalidArgument,
        AuthError::SolutionRequired => Code::InvalidArgument,
        AuthError::InvalidVerifierId => Code::InvalidArgument,
        AuthError::InvalidSessionId => Code::InvalidArgument,
        AuthError::UsernameExists => Code::AlreadyExists,
        AuthError::UsernameNotFound => Code::NotFound,
        AuthError::VerifierNotFound => Code::NotFound,
        AuthError::AuthenticationFailed => Code::Unauthenticated,
        AuthError::NotAuthenticated => Code::Unauthenticated,
        AuthError::Internal => Code::Internal,
    }
}

/// What each error says to the client.
pub open spec fn auth_error_text(error: AuthError) -> Seq<char> {
    match error {
        AuthError::UsernameRequired => "Username required"@,
        AuthError::SignatureRequired => "Signature required"@,
        AuthError::GroupRequired => "Group required"@,
        AuthError::CommitmentRequired => "Commitment required"@,
        AuthError::SolutionRequired => "Solution required"@,
        AuthError::InvalidVerifierId => "Invalid verifier_id"@,
        AuthError::InvalidSessionId => "Invalid session_id"@,
        AuthError::UsernameExists => "Username already exists"@,
        AuthError::UsernameNotFound => "Username not found"@,
        AuthError::VerifierNotFound => "Verifier not found"@,
        AuthError::AuthenticationFailed => "Authentication failed"@,
        AuthError::NotAuthenticated => "Not authenticated"@,
        AuthError::Internal => "An internal error occurred"@,
    }
}

/// The service's error for an error of the proof engine: a signature
/// without a group is the client's fault, a group that is not well formed
/// keeps the verifier from being made.
pub open spec fn auth_error_of(error: Error) -> AuthError {
    match error {
        Error::GroupNotSpecified => AuthError::GroupRequired,
        Error::InvalidGroup => AuthError::Internal,
    }
}

impl AuthError {
    /// The status code that the error maps to.
    pub fn code(&self) -> (code: Code)
        ensures
            code == code_of(*self),
    {
        match self {
            AuthError::UsernameRequired => Code::InvalidArgument,
            AuthError::SignatureRequired => Code::InvalidArgument,
            AuthError::GroupRequired => Code::InvalidArgument,
            AuthError::CommitmentRequired => Code::InvalidArgument,
            AuthError::SolutionRequired => Code::InvalidArgument,
            AuthError::InvalidVerifierId => Code::InvalidArgument,
            AuthError::InvalidSessionId => Code::InvalidArgument,
            AuthError::UsernameExists => Code::AlreadyExists,
            AuthError::UsernameNotFound => Code::NotFound,
            AuthError::VerifierNotFound => Code::NotFound,
            AuthError::AuthenticationFailed => Code::Unauthenticated,
            AuthError::NotAuthenticated => Code::Unauthenticated,
            AuthError::Internal => Code::Internal,
        }
    }

    /// The text of the error. An internal error says nothing of its cause.
    pub fn message(&self) -> (text: String)
        ensures
            text@ == auth_error_text(*self),
    {
        match self {
            AuthError::UsernameRequired => String::from_str("Username required"),
            AuthError::SignatureRequired => String::from_str("Signature required"),
            AuthError::GroupRequired => String::from_str("Group required"),
            AuthError::CommitmentRequired => String::from_str("Commitment required"),
            AuthError::SolutionRequired => String::from_str("Solution required"),
            AuthError::InvalidVerifierId => String::from_str("Invalid verifier_id"),
            AuthError::InvalidSessionId => String::from_str("Invalid session_id"),
            AuthError::UsernameExists => String::from_str("Username already exists"),
            AuthError::UsernameNotFound => String::from_str("Username not found"),
            AuthError::VerifierNotFound => String::from_str("Verifier not found"),
            AuthError::AuthenticationFailed => String::from_str("Authentication failed"),
            AuthError::NotAuthenticated => String::from_str("Not authenticated"),
            AuthError::Internal => String::from_str("An internal error occurred"),
        }
    }

    /// The service's error for an error of the proof engine.
    pub fn from(error: Error) -> (auth_error: Self)
        ensures
            auth_error == auth_error_of(error),
    {
        match error {
            Error::GroupNotSpecified => AuthError::GroupRequired,
            Error::InvalidGroup => AuthError::Internal,
        }
    }
}

} // verus!
