//! Why a signer could not be built.

use crate::bignum::encoding::decimal;
use crate::bignum::number::to_decimal;
use crate::bignum::number::value;
use num_bigint::BigUint;
use vstd::prelude::*;
use vstd::string::StringExecFns;

verus! {

/// Why a signer could not be built.
#[derive(Debug)]
pub enum SignerError {
    /// The moduli or the secret were given before the generators.
    GeneratorsNotSet,
    /// The secret was given, or the signer asked for, before the moduli.
    ModuliNotSet,
    /// The generators `(alpha, beta)` are equal, or one of them is below two.
    InvalidGenerators((BigUint, BigUint)),
    /// The moduli `(p, q)` do not fit the generators: `q` is zero or not
    /// below `p`, or a generator is not below `p`.
    InvalidModuli((BigUint, BigUint)),
    /// The secret is not below `q`.
    InvalidSecret,
}

/// What a [`SignerError`] says.
pub open spec fn signer_error_text(error: SignerError) -> Seq<char> {
    match error {
        SignerError::GeneratorsNotSet => "Generators not set"@,
        SignerError::ModuliNotSet => "Moduli not set"@,
        SignerError::InvalidGenerators((alpha, beta)) => "Invalid generators (alpha, beta) => ("@
            + decimal(value(alpha)) + ", "@ + decimal(value(beta)) + ")"@,
        SignerError::InvalidModuli((p, q)) => "Invalid moduli (p, q) => ("@ + decimal(value(p))
            + ", "@ + decimal(value(q)) + ")"@,
        SignerError::InvalidSecret => "Invalid secret"@,
    }
}

impl SignerError {
    /// The text of the error, with the offending numbers in decimal.
    pub fn message(&self) -> (text: String)
        ensures
            text@ == signer_error_text(*self),
    {
        match self {
            SignerError::GeneratorsNotSet => String::from_str("Generators not set"),
            SignerError::ModuliNotSet => String::from_str("Moduli not set"),
            SignerError::InvalidGenerators((alpha, beta)) => {
                let mut text = String::from_str("Invalid generators (alpha, beta) => (");
                text.append(to_decimal(alpha).as_str());
                text.append(", ");
                text.append(to_decimal(beta).as_str());
                text.append(")");
                text
            },
            SignerError::InvalidModuli((p, q)) => {
                let mut text = String::from_str("Invalid moduli (p, q) => (");
                text.append(to_decimal(p).as_str());
                text.append(", ");
                text.append(to_decimal(q).as_str());
                text.append(")");
                text
            },
            SignerError::InvalidSecret => String::from_str("Invalid secret"),
        }
    }
}

} // verus!
