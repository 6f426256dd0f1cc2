//! The prover of the protocol: it holds a group and the nonce of one proof,
//! takes the secret with each call, and speaks in messages.

use crate::bignum::encoding::be_value;
use crate::bignum::encoding::lemma_minimal_bytes;
use crate::bignum::encoding::minimal_bytes;
use crate::bignum::number::encode;
use crate::bignum::number::from_bytes_be;
use crate::bignum::number::from_u32;
use crate::bignum::number::random_below;
use crate::bignum::number::sum;
use crate::bignum::number::value;
use crate::crypto::response;
use crate::crypto::GroupView;
use crate::grpc::auth::messages::Challenge;
use crate::grpc::auth::messages::Commitment;
use crate::grpc::auth::messages::CommitmentView;
use crate::grpc::auth::messages::Group;
use crate::grpc::auth::messages::ProtoGroupView;
use crate::grpc::auth::messages::Signature;
use crate::grpc::auth::messages::SignatureView;
use crate::grpc::auth::messages::Solution;
use crate::zkp::error::CryptoError;
use crate::zkp::hex::decode;
use crate::zkp::hex::hex_bytes;
use crate::zkp::hex::is_hex;
use crate::zkp::registry::GroupRegistry;
use crate::zkp::GroupParams;
use num_bigint::BigUint;
use vstd::prelude::*;

verus! {

/// The SHA-256 digest of a text's UTF-8 bytes, in 64 lower-case hexadecimal
/// digits, as `sha256::digest` gives it.
pub uninterp spec fn sha256_hex(text: Seq<char>) -> Seq<char>;

/// `sha256::digest` on a `String`: the SHA-256 digest of the text, written
/// in hexadecimal digits, two for each of its 32 bytes.
#[verifier::external_body]
fn sha256_digest(text: String) -> (digest: String)
    ensures
        digest@ == sha256_hex(text@),
        is_hex(digest@),
        digest@.len() == 64,
{
    sha256::digest(text)
}

/// The SHA-256 digest of a text's UTF-8 bytes: 32 bytes.
pub open spec fn sha256_bytes(text: Seq<char>) -> Seq<u8> {
    hex_bytes(sha256_hex(text))
}

/// The secret that a password gives in a group of order `q`: the SHA-256
/// digest of the password, read as a big-endian number, modulo `q`.
pub open spec fn derived_secret(password: Seq<char>, q: nat) -> nat {
    be_value(sha256_bytes(password)) % q
}

/// The message that carries the group `g`.
pub open spec fn group_message(g: GroupView) -> ProtoGroupView {
    ProtoGroupView {
        p: minimal_bytes(g.p),
        q: minimal_bytes(g.q),
        alpha: minimal_bytes(g.alpha),
        beta: minimal_bytes(g.beta),
    }
}

/// The signature of the secret `x` in the group `g`, as a message.
pub open spec fn signature_message(g: GroupView, x: nat) -> SignatureView {
    SignatureView {
        group: Some(group_message(g)),
        y1: minimal_bytes(g.powers(x).0),
        y2: minimal_bytes(g.powers(x).1),
    }
}

/// The commitment of the nonce `k` in the group `g`, as a message.
pub open spec fn commitment_message(g: GroupView, k: nat) -> CommitmentView {
    CommitmentView { r1: minimal_bytes(g.powers(k).0), r2: minimal_bytes(g.powers(k).1) }
}

/// A prover: a group and the nonce `k` of the proof at hand.
pub struct Signer<'a> {
    group: &'a GroupParams,
    k: BigUint,
}

/// A [`Signer`] as natural numbers.
pub struct SignerView {
    pub group: GroupView,
    pub k: nat,
}

impl<'a> Signer<'a> {
    pub closed spec fn view(&self) -> SignerView {
        SignerView { group: self.group@, k: value(self.k) }
    }

    /// A prover in `group` with the nonce `k`.
    pub fn with_nonce(group: &'a GroupParams, k: BigUint) -> (signer: Self)
        ensures
            signer@ == (SignerView { group: group@, k: value(k) }),
            signer@.group.well_formed(),
    {
        let _ = group.group();
        Signer { group, k }
    }

    /// A prover in `group` with a nonce drawn below `q`.
    pub fn from(group: &'a GroupParams) -> (signer: Self)
        ensures
            signer@.group == group@,
            signer@.group.well_formed(),
            signer@.k < signer@.group.q,
    {
        let k = random_below(&group.group().q);
        Self::with_nonce(group, k)
    }

    /// A prover in the group that `registry` holds under `id`, with a nonce
    /// drawn below `q`.
    pub fn try_from(registry: &'a GroupRegistry, id: Group) -> (res: Result<Self, CryptoError>)
        ensures
            res is Err <==> id == Group::UnspecifiedGroup,
            match res {
                Ok(signer) => registry.group(id) == Some(signer@.group) && signer@.k
                    < signer@.group.q,
                Err(e) => id == Group::UnspecifiedGroup && e == CryptoError::GroupNotSpecified,
            },
    {
        match registry.lookup(id) {
            Ok(group) => Ok(Self::from(group)),
            Err(e) => Err(e),
        }
    }

    /// Draws a secret below `q`.
    pub fn create_random_secret(&self) -> (x: BigUint)
        ensures
            value(x) < self@.group.q,
    {
        random_below(&self.group.group().q)
    }

    /// Draws a secret below `q`, as [`Self::create_random_secret`] does.
    pub fn create_secret(&self) -> (x: BigUint)
        ensures
            value(x) < self@.group.q,
    {
        self.create_random_secret()
    }

    /// Derives the secret from a password: its SHA-256 digest, read as a
    /// big-endian number, modulo `q`, as [`derived_secret`] states it.
    pub fn create_secret_from_password(&self, password: String) -> (x: BigUint)
        ensures
            value(x) == derived_secret(password@, self@.group.q),
            value(x) < self@.group.q,
    {
        let digest = sha256_digest(password);
        let bytes = match decode(digest.as_str()) {
            Ok(bytes) => bytes,
            Err(_) => unreached(),
        };
        let number = from_bytes_be(bytes.as_slice());
        let group = self.group.group();
        proof {
            vstd::arithmetic::div_mod::lemma_mod_bound(value(number) as int, group@.q as int);
        }
        group.reduce(&number)
    }

    /// The signature `(alpha^x, beta^x)` of `secret`, with the group.
    pub fn create_signature(&self, secret: &BigUint) -> (signature: Signature)
        ensures
            signature@ == signature_message(self@.group, value(*secret)),
            signature@.group matches Some(group) && group.numbers() == self@.group,
            (be_value(signature.y1@), be_value(signature.y2@)) == self@.group.powers(
                value(*secret),
            ),
    {
        proof {
            lemma_minimal_bytes(self@.group.p);
            lemma_minimal_bytes(self@.group.q);
            lemma_minimal_bytes(self@.group.alpha);
            lemma_minimal_bytes(self@.group.beta);
            lemma_minimal_bytes(self@.group.powers(value(*secret)).0);
            lemma_minimal_bytes(self@.group.powers(value(*secret)).1);
        }
        let y = self.group.group().powers(secret);
        Signature { group: Some(self.group.to_proto()), y1: encode(&y.0), y2: encode(&y.1) }
    }

    /// The commitment `(alpha^k, beta^k)` of the nonce.
    pub fn create_commitment(&self) -> (commitment: Commitment)
        ensures
            commitment@ == commitment_message(self@.group, self@.k),
            (be_value(commitment.r1@), be_value(commitment.r2@)) == self@.group.powers(self@.k),
    {
        proof {
            lemma_minimal_bytes(self@.group.powers(self@.k).0);
            lemma_minimal_bytes(self@.group.powers(self@.k).1);
        }
        let r = self.group.group().powers(&self.k);
        Commitment { r1: encode(&r.0), r2: encode(&r.1) }
    }

    /// The answer to `challenge`: `s = k - c*x` modulo `q`, the least
    /// non-negative remainder.
    pub fn create_solution(&self, secret: &BigUint, challenge: Challenge) -> (solution: Solution)
        ensures
            solution.s@ == minimal_bytes(
                response(self@.k, be_value(challenge.c@), value(*secret), self@.group.q),
            ),
            be_value(solution.s@) == response(
                self@.k,
                be_value(challenge.c@),
                value(*secret),
                self@.group.q,
            ),
            be_value(solution.s@) < self@.group.q,
    {
        proof {
            lemma_minimal_bytes(
                response(self@.k, be_value(challenge.c@), value(*secret), self@.group.q),
            );
        }
        let c = from_bytes_be(challenge.c.as_slice());
        let s = self.group.group().respond(&self.k, secret, &c);
        Solution { s: encode(&s) }
    }

    /// An answer that is off by one: `(s + 1) mod q` for the answer `s` of
    /// [`Self::create_solution`].
    pub fn create_invalid_solution(&self, secret: &BigUint, challenge: Challenge) -> (solution:
        Solution)
        ensures
            solution.s@ == minimal_bytes(
                (response(self@.k, be_value(challenge.c@), value(*secret), self@.group.q) + 1)
                    % self@.group.q,
            ),
    {
        let valid = self.create_solution(secret, challenge);
        let s_valid = from_bytes_be(valid.s.as_slice());
        let s_invalid = self.group.group().reduce(&sum(&s_valid, &from_u32(1)));
        Solution { s: encode(&s_invalid) }
    }
}

} // verus!
