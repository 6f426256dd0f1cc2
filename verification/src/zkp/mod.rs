//! The proof engine as the protocol uses it: groups that are known to be
//! well formed, the registry of the named groups, and a signer and a verifier
//! that speak in messages.

use crate::bignum::encoding::be_value;
use crate::bignum::encoding::lemma_minimal_bytes;
use crate::bignum::encoding::minimal_bytes;
use crate::bignum::modular::lemma_pow_mod_bound;
use crate::bignum::modular::pow_mod;
use crate::bignum::number::at_least;
use crate::bignum::number::encode;
use crate::bignum::number::from_bytes_be;
use crate::bignum::number::from_u32;
use crate::bignum::number::modpow;
use crate::bignum::number::random_below;
use crate::bignum::number::same;
use crate::bignum::number::value;
use crate::crypto::Group;
use crate::crypto::GroupView;
use crate::grpc::auth::messages::ProtoGroup;
use crate::grpc::auth::messages::ProtoGroupView;
use crate::zkp::error::CryptoError;
use crate::zkp::hex::decode;
use crate::zkp::hex::hex_bytes;
use crate::zkp::hex::is_hex;
use crate::zkp::hex::strip_white_space;
use crate::zkp::hex::without_white_space;
use num_bigint::BigUint;
use vstd::prelude::*;

pub mod error;
pub mod hex;
pub mod laws;
pub mod registry;
pub mod signer;
pub mod verification;

verus! {

/// How often a second generator is drawn before the search is given up.
pub const MAX_GENERATOR_DRAWS: u32 = 128;

/// The parameters of a group, known to be well formed.
pub struct GroupParams {
    group: Group,
}

/// Whether `p`, `q` and `alpha` can be the moduli and the first generator of
/// a group.
pub open spec fn valid_base(p: nat, q: nat, alpha: nat) -> bool {
    1 < alpha < p && 0 < q < p
}

/// Whether `beta` can stand beside `alpha` as the second generator: it is a
/// power `alpha^r mod p` with `1 <= r < q`, exceeds one and differs from
/// `alpha`.
pub open spec fn is_second_generator(p: nat, q: nat, alpha: nat, beta: nat) -> bool {
    &&& beta > 1
    &&& beta != alpha
    &&& exists|r: nat| 1 <= r < q && beta == #[trigger] pow_mod(alpha, r, p)
}

/// The number that a text of hexadecimal digits and white space denotes.
pub open spec fn hex_number(text: Seq<char>) -> nat {
    be_value(hex_bytes(without_white_space(text)))
}

/// Whether a text is hexadecimal digits, an even number of them, and white
/// space.
pub open spec fn is_hex_number(text: Seq<char>) -> bool {
    is_hex(without_white_space(text))
}

/// Reads a number written in hexadecimal digits and white space.
pub fn parse_hex_number(text: &str) -> (res: Result<BigUint, CryptoError>)
    ensures
        res is Ok <==> is_hex_number(text@),
        res matches Ok(n) ==> value(n) == hex_number(text@),
        res matches Err(e) ==> e == CryptoError::InvalidHex,
{
    let digits = strip_white_space(text);
    match decode(digits.as_str()) {
        Ok(bytes) => Ok(from_bytes_be(bytes.as_slice())),
        Err(_) => Err(CryptoError::InvalidHex),
    }
}

/// The second generator that the exponent `r` gives, `alpha^r mod p`, if it
/// can stand beside `alpha`: `r` is not zero, and the power exceeds one and
/// differs from `alpha`.
pub fn second_generator(p: &BigUint, alpha: &BigUint, r: &BigUint) -> (beta: Option<BigUint>)
    requires
        value(*p) != 0,
    ensures
        beta is Some <==> value(*r) >= 1 && pow_mod(value(*alpha), value(*r), value(*p)) > 1
            && pow_mod(value(*alpha), value(*r), value(*p)) != value(*alpha),
        beta matches Some(b) ==> value(b) == pow_mod(value(*alpha), value(*r), value(*p)),
{
    proof {
        lemma_pow_mod_bound(value(*alpha), value(*r), value(*p));
    }
    let one = from_u32(1);
    if !at_least(r, &one) {
        return None;
    }
    let beta = modpow(alpha, r, p);
    if at_least(&one, &beta) || same(&beta, alpha) {
        None
    } else {
        Some(beta)
    }
}

impl GroupParams {
    #[verifier::type_invariant]
    spec fn group_is_well_formed(self) -> bool {
        self.group@.well_formed()
    }

    pub closed spec fn view(&self) -> GroupView {
        self.group@
    }

    /// Accepts a group's parameters where they are well formed.
    pub fn new(group: Group) -> (res: Result<Self, CryptoError>)
        ensures
            res is Ok <==> group@.well_formed(),
            res matches Ok(params) ==> params@ == group@,
            res matches Err(e) ==> e == CryptoError::InvalidParameters,
    {
        if group.is_well_formed() {
            Ok(GroupParams { group })
        } else {
            Err(CryptoError::InvalidParameters)
        }
    }

    /// The parameters.
    pub fn group(&self) -> (group: &Group)
        ensures
            group@ == self@,
            group@.well_formed(),
    {
        proof {
            use_type_invariant(self);
        }
        &self.group
    }

    /// Draws exponents below `q` until one gives a second generator, at most
    /// [`MAX_GENERATOR_DRAWS`] times.
    fn gen_random_beta(p: &BigUint, q: &BigUint, alpha: &BigUint) -> (beta: Option<BigUint>)
        requires
            value(*p) != 0,
            value(*q) != 0,
        ensures
            beta matches Some(b) ==> is_second_generator(
                value(*p),
                value(*q),
                value(*alpha),
                value(b),
            ),
    {
        let mut draws: u32 = 0;
        while draws < MAX_GENERATOR_DRAWS
            invariant
                value(*p) != 0,
                value(*q) != 0,
            decreases MAX_GENERATOR_DRAWS - draws,
        {
            let r = random_below(q);
            match second_generator(p, alpha, &r) {
                Some(beta) => {
                    return Some(beta);
                },
                None => {},
            }
            draws = draws + 1;
        }
        None
    }

    /// Sets up a group from its moduli and first generator, and draws the
    /// second generator.
    pub fn from(base: (BigUint, BigUint, BigUint)) -> (res: Result<Self, CryptoError>)
        ensures
            match res {
                Ok(params) => {
                    &&& valid_base(value(base.0), value(base.1), value(base.2))
                    &&& params@.p == value(base.0)
                    &&& params@.q == value(base.1)
                    &&& params@.alpha == value(base.2)
                    &&& is_second_generator(params@.p, params@.q, params@.alpha, params@.beta)
                    &&& params@.well_formed()
                },
                Err(e) => if valid_base(value(base.0), value(base.1), value(base.2)) {
                    e == CryptoError::GeneratorNotFound
                } else {
                    e == CryptoError::InvalidParameters
                },
            },
    {
        let (p, q, alpha) = base;
        let zero = from_u32(0);
        let one = from_u32(1);
        if at_least(&one, &alpha) || at_least(&alpha, &p) || at_least(&zero, &q) || at_least(&q, &p) {
            return Err(CryptoError::InvalidParameters);
        }
        match Self::gen_random_beta(&p, &q, &alpha) {
            Some(beta) => {
                proof {
                    let r = choose|r: nat|
                        1 <= r < value(q) && value(beta) == #[trigger] pow_mod(
                            value(alpha),
                            r,
                            value(p),
                        );
                    lemma_pow_mod_bound(value(alpha), r, value(p));
                }
                Ok(GroupParams { group: Group { p, q, alpha, beta } })
            },
            None => Err(CryptoError::GeneratorNotFound),
        }
    }

    /// Sets up a group from its moduli and first generator, each written in
    /// hexadecimal digits and white space, and draws the second generator.
    pub fn from_hex(base: (&str, &str, &str)) -> (res: Result<Self, CryptoError>)
        ensures
            match res {
                Ok(params) => {
                    &&& is_hex_number(base.0@) && is_hex_number(base.1@) && is_hex_number(base.2@)
                    &&& valid_base(hex_number(base.0@), hex_number(base.1@), hex_number(base.2@))
                    &&& params@.p == hex_number(base.0@)
                    &&& params@.q == hex_number(base.1@)
                    &&& params@.alpha == hex_number(base.2@)
                    &&& is_second_generator(params@.p, params@.q, params@.alpha, params@.beta)
                    &&& params@.well_formed()
                },
                Err(e) => if !(is_hex_number(base.0@) && is_hex_number(base.1@) && is_hex_number(
                    base.2@,
                )) {
                    e == CryptoError::InvalidHex
                } else if !valid_base(
                    hex_number(base.0@),
                    hex_number(base.1@),
                    hex_number(base.2@),
                ) {
                    e == CryptoError::InvalidParameters
                } else {
                    e == CryptoError::GeneratorNotFound
                },
            },
    {
        let p = match parse_hex_number(base.0) {
            Ok(p) => p,
            Err(e) => {
                return Err(e);
            },
        };
        let q = match parse_hex_number(base.1) {
            Ok(q) => q,
            Err(e) => {
                return Err(e);
            },
        };
        let alpha = match parse_hex_number(base.2) {
            Ok(alpha) => alpha,
            Err(e) => {
                return Err(e);
            },
        };
        Self::from((p, q, alpha))
    }

    /// Reads a group from its message and accepts it where it is well
    /// formed.
    pub fn from_proto(proto: &ProtoGroup) -> (res: Result<Self, CryptoError>)
        ensures
            res is Ok <==> proto@.numbers().well_formed(),
            res matches Ok(params) ==> params@ == proto@.numbers(),
            res matches Err(e) ==> e == CryptoError::InvalidParameters,
    {
        Self::new(
            Group {
                p: from_bytes_be(proto.p.as_slice()),
                q: from_bytes_be(proto.q.as_slice()),
                alpha: from_bytes_be(proto.alpha.as_slice()),
                beta: from_bytes_be(proto.beta.as_slice()),
            },
        )
    }

    /// Writes the group as a message.
    pub fn to_proto(&self) -> (proto: ProtoGroup)
        ensures
            proto@ == (ProtoGroupView {
                p: minimal_bytes(self@.p),
                q: minimal_bytes(self@.q),
                alpha: minimal_bytes(self@.alpha),
                beta: minimal_bytes(self@.beta),
            }),
            proto@.numbers() == self@,
    {
        proof {
            lemma_minimal_bytes(self@.p);
            lemma_minimal_bytes(self@.q);
            lemma_minimal_bytes(self@.alpha);
            lemma_minimal_bytes(self@.beta);
        }
        ProtoGroup {
            p: encode(&self.group.p),
            q: encode(&self.group.q),
            alpha: encode(&self.group.alpha),
            beta: encode(&self.group.beta),
        }
    }
}

} // verus!
