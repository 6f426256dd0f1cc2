//! The verifier of the protocol: made from a stored signature and a
//! commitment, it hands out the challenge and tests the answer.

use crate::bignum::encoding::be_value;
use crate::bignum::encoding::lemma_minimal_bytes;
use crate::bignum::encoding::minimal_bytes;
use crate::bignum::number::encode;
use crate::bignum::number::from_bytes_be;
use crate::bignum::number::random_below;
use crate::bignum::number::value;
use crate::crypto::verification::VerifierView;
use crate::grpc::auth::messages::Challenge;
use crate::grpc::auth::messages::Commitment;
use crate::grpc::auth::messages::CommitmentView;
use crate::grpc::auth::messages::Signature;
use crate::grpc::auth::messages::SignatureView;
use crate::grpc::auth::messages::Solution;
use crate::zkp::error::Error;
use crate::zkp::GroupParams;
use num_bigint::BigUint;
use vstd::prelude::*;

verus! {

/// The verifier of one proof.
pub struct Verifier {
    inner: crate::crypto::verification::Verifier,
}

/// Why no verifier can be made from a signature: it carries no group, or a
/// group whose parameters do not fit together.
pub open spec fn signature_fault(signature: SignatureView) -> Option<Error> {
    match signature.group {
        None => Some(Error::GroupNotSpecified),
        Some(group) => if group.numbers().well_formed() {
            None
        } else {
            Some(Error::InvalidGroup)
        },
    }
}

/// The verifier that a signature, a commitment and a challenge `c` make up.
pub open spec fn verifier_of(signature: SignatureView, commitment: CommitmentView, c: nat)
    -> VerifierView
    recommends
        signature.group is Some,
{
    VerifierView {
        group: signature.group->0.numbers(),
        y: (be_value(signature.y1), be_value(signature.y2)),
        r: (be_value(commitment.r1), be_value(commitment.r2)),
        c,
    }
}

impl Verifier {
    pub closed spec fn view(&self) -> VerifierView {
        self.inner@
    }

    /// Reads the group of a signature and accepts it where it is well
    /// formed.
    fn group_of(signature: &Signature) -> (res: Result<GroupParams, Error>)
        ensures
            match res {
                Ok(group) => signature_fault(signature@) is None && group@
                    == signature@.group->0.numbers() && group@.well_formed(),
                Err(e) => signature_fault(signature@) == Some(e),
            },
    {
        match &signature.group {
            None => Err(Error::GroupNotSpecified),
            Some(proto) => match GroupParams::from_proto(proto) {
                Ok(group) => {
                    let _ = group.group();
                    Ok(group)
                },
                Err(_) => Err(Error::InvalidGroup),
            },
        }
    }

    /// A verifier of `signature` and `commitment` with the challenge `c`.
    /// It fails where the signature carries no group or no well-formed one.
    pub fn with_challenge(pair: (Signature, Commitment), c: BigUint) -> (res: Result<Self, Error>)
        ensures
            match res {
                Ok(verifier) => signature_fault(pair.0@) is None && verifier@ == verifier_of(
                    pair.0@,
                    pair.1@,
                    value(c),
                ),
                Err(e) => signature_fault(pair.0@) == Some(e),
            },
    {
        let (signature, commitment) = pair;
        let group = match Self::group_of(&signature) {
            Ok(group) => group,
            Err(e) => {
                return Err(e);
            },
        };
        let statement = crate::crypto::Commitment {
            group: group.group().clone(),
            y: (from_bytes_be(signature.y1.as_slice()), from_bytes_be(signature.y2.as_slice())),
            r: (from_bytes_be(commitment.r1.as_slice()), from_bytes_be(commitment.r2.as_slice())),
        };
        Ok(Verifier { inner: crate::crypto::verification::Verifier::with_challenge(statement, c) })
    }

    /// A verifier of `signature` and `commitment` with a challenge drawn
    /// below `q`. It fails where the signature carries no group or no
    /// well-formed one.
    pub fn try_from(pair: (Signature, Commitment)) -> (res: Result<Self, Error>)
        ensures
            match res {
                Ok(verifier) => signature_fault(pair.0@) is None && verifier@ == verifier_of(
                    pair.0@,
                    pair.1@,
                    verifier@.c,
                ) && verifier@.c < verifier@.group.q,
                Err(e) => signature_fault(pair.0@) == Some(e),
            },
    {
        let c = match Self::group_of(&pair.0) {
            Ok(group) => random_below(&group.group().q),
            Err(e) => {
                return Err(e);
            },
        };
        Self::with_challenge(pair, c)
    }

    /// The challenge, as a message.
    pub fn create_challenge(&self) -> (challenge: Challenge)
        ensures
            challenge.c@ == minimal_bytes(self@.c),
            be_value(challenge.c@) == self@.c,
    {
        proof {
            lemma_minimal_bytes(self@.c);
        }
        Challenge { c: encode(&self.inner.create_challenge()) }
    }

    /// Tests the answer of `solution`: whether `r1 == alpha^s * y1^c` and
    /// `r2 == beta^s * y2^c` modulo `p`. Every byte string is read as a
    /// number.
    pub fn verify_solution(&self, solution: Solution) -> (ok: bool)
        ensures
            ok == self@.accepts(be_value(solution.s@)),
    {
        self.inner.verify_solution(from_bytes_be(solution.s.as_slice()))
    }
}

} // verus!
