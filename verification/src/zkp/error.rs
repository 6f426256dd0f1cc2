//! The errors of the proof engine.

use vstd::prelude::*;
use vstd::string::StringExecFns;

verus! {

/// Why a signer or a verifier could not be made from a message.
#[derive(Clone, Copy, Debug, PartialEq, Eq, Structural)]
pub enum Error {
    /// The signature carries no group.
    GroupNotSpecified,
    /// The parameters of the group do not fit together.
    InvalidGroup,
}

/// What an [`Error`] says.
pub open spec fn error_text(error: Error) -> Seq<char> {
    match error {
        Error::GroupNotSpecified => "Group not specified"@,
        Error::InvalidGroup => "Invalid group parameters"@,
    }
}

impl Error {
    /// The text of the error.
    pub fn message(&self) -> (text: String)
        ensures
            text@ == error_text(*self),
    {
        match self {
            Error::GroupNotSpecified => String::from_str("Group not specified"),
            Error::InvalidGroup => String::from_str("Invalid group parameters"),
        }
    }
}

/// Why the registry gave no group, or why a group could not be set up.
#[derive(Clone, Copy, Debug, PartialEq, Eq, Structural)]
pub enum CryptoError {
    /// The identifier names no group.
    GroupNotSpecified,
    /// The parameters of the group do not fit together.
    InvalidParameters,
    /// A parameter is not written in hexadecimal digits.
    InvalidHex,
    /// No draw gave a second generator.
    GeneratorNotFound,
}

/// What a [`CryptoError`] says.
pub open spec fn crypto_error_text(error: CryptoError) -> Seq<char> {
    match error {
        CryptoError::GroupNotSpecified => "Group not specified"@,
        CryptoError::InvalidParameters => "Invalid group parameters"@,
        CryptoError::InvalidHex => "Invalid hexadecimal digits"@,
        CryptoError::GeneratorNotFound => "No second generator found"@,
    }
}

impl CryptoError {
    /// The text of the error.
    pub fn message(&self) -> (text: String)
        ensures
            text@ == crypto_error_text(*self),
    {
        match self {
            CryptoError::GroupNotSpecified => String::from_str("Group not specified"),
            CryptoError::InvalidParameters => String::from_str("Invalid group parameters"),
            CryptoError::InvalidHex => String::from_str("Invalid hexadecimal digits"),
            CryptoError::GeneratorNotFound => String::from_str("No second generator found"),
        }
    }
}

} // verus!
