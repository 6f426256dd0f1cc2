//! The messages of the service. Every big integer travels as its shortest
//! big-endian byte string, every identifier as a hyphenated UUID.

use crate::bignum::encoding::be_value;
use crate::bignum::encoding::decimal;
use crate::bignum::number::from_bytes_be;
use crate::bignum::number::to_decimal;
use crate::crypto::GroupView;
use vstd::prelude::*;
use vstd::string::StringExecFns;

verus! {

/// The parameters of a group.
#[derive(Debug, PartialEq)]
pub struct ProtoGroup {
    pub p: Vec<u8>,
    pub q: Vec<u8>,
    pub alpha: Vec<u8>,
    pub beta: Vec<u8>,
}

pub struct ProtoGroupView {
    pub p: Seq<u8>,
    pub q: Seq<u8>,
    pub alpha: Seq<u8>,
    pub beta: Seq<u8>,
}

impl ProtoGroupView {
    /// The numbers that the bytes denote.
    pub open spec fn numbers(self) -> GroupView {
        GroupView {
            p: be_value(self.p),
            q: be_value(self.q),
            alpha: be_value(self.alpha),
            beta: be_value(self.beta),
        }
    }
}

impl View for ProtoGroup {
    type V = ProtoGroupView;

    open spec fn view(&self) -> ProtoGroupView {
        ProtoGroupView { p: self.p@, q: self.q@, alpha: self.alpha@, beta: self.beta@ }
    }
}

impl Clone for ProtoGroup {
    fn clone(&self) -> (copy: Self)
        ensures
            copy@ == self@,
    {
        ProtoGroup {
            p: self.p.clone(),
            q: self.q.clone(),
            alpha: self.alpha.clone(),
            beta: self.beta.clone(),
        }
    }
}

impl ProtoGroup {
    /// The parameters in decimal digits, for the log.
    pub fn tracing_string(&self) -> (text: String)
        ensures
            text@ == "{p: "@ + decimal(be_value(self.p@)) + ", q: "@ + decimal(be_value(self.q@))
                + ", alpha: "@ + decimal(be_value(self.alpha@)) + ", beta: "@ + decimal(
                be_value(self.beta@),
            ) + "}"@,
    {
        let mut text = String::from_str("{p: ");
        text.append(to_decimal(&from_bytes_be(self.p.as_slice())).as_str());
        text.append(", q: ");
        text.append(to_decimal(&from_bytes_be(self.q.as_slice())).as_str());
        text.append(", alpha: ");
        text.append(to_decimal(&from_bytes_be(self.alpha.as_slice())).as_str());
        text.append(", beta: ");
        text.append(to_decimal(&from_bytes_be(self.beta.as_slice())).as_str());
        text.append("}");
        text
    }
}

/// A user's public signature `(y1, y2)` and the group it was made in.
#[derive(Debug, PartialEq)]
pub struct Signature {
    pub group: Option<ProtoGroup>,
    pub y1: Vec<u8>,
    pub y2: Vec<u8>,
}

pub struct SignatureView {
    pub group: Option<ProtoGroupView>,
    pub y1: Seq<u8>,
    pub y2: Seq<u8>,
}

impl View for Signature {
    type V = SignatureView;

    open spec fn view(&self) -> SignatureView {
        SignatureView {
            group: match self.group {
                Some(group) => Some(group@),
                None => None,
            },
            y1: self.y1@,
            y2: self.y2@,
        }
    }
}

impl Clone for Signature {
    fn clone(&self) -> (copy: Self)
        ensures
            copy@ == self@,
    {
        Signature {
            group: match &self.group {
                Some(group) => Some(group.clone()),
                None => None,
            },
            y1: self.y1.clone(),
            y2: self.y2.clone(),
        }
    }
}

impl Signature {
    /// The signature in decimal digits, for the log.
    pub fn tracing_string(&self) -> (text: String)
        ensures
            text@ == "{y1: "@ + decimal(be_value(self.y1@)) + ", y2: "@ + decimal(
                be_value(self.y2@),
            ) + "}"@,
    {
        let mut text = String::from_str("{y1: ");
        text.append(to_decimal(&from_bytes_be(self.y1.as_slice())).as_str());
        text.append(", y2: ");
        text.append(to_decimal(&from_bytes_be(self.y2.as_slice())).as_str());
        text.append("}");
        text
    }
}

/// A prover's commitment `(r1, r2)`.
#[derive(Clone, Debug, PartialEq)]
pub struct Commitment {
    pub r1: Vec<u8>,
    pub r2: Vec<u8>,
}

pub struct CommitmentView {
    pub r1: Seq<u8>,
    pub r2: Seq<u8>,
}

impl View for Commitment {
    type V = CommitmentView;

    open spec fn view(&self) -> CommitmentView {
        CommitmentView { r1: self.r1@, r2: self.r2@ }
    }
}

impl Commitment {
    /// The commitment in decimal digits, for the log.
    pub fn tracing_string(&self) -> (text: String)
        ensures
            text@ == "{r1: "@ + decimal(be_value(self.r1@)) + ", r2: "@ + decimal(
                be_value(self.r2@),
            ) + "}"@,
    {
        let mut text = String::from_str("{r1: ");
        text.append(to_decimal(&from_bytes_be(self.r1.as_slice())).as_str());
        text.append(", r2: ");
        text.append(to_decimal(&from_bytes_be(self.r2.as_slice())).as_str());
        text.append("}");
        text
    }
}

/// The verifier's challenge `c`.
#[derive(Clone, Debug, PartialEq)]
pub struct Challenge {
    pub c: Vec<u8>,
}

/// The prover's answer `s`.
#[derive(Clone, Debug, PartialEq)]
pub struct Solution {
    pub s: Vec<u8>,
}

#[derive(Clone, Debug, PartialEq)]
pub struct SignUpRequest {
    pub username: String,
    pub signature: Option<Signature>,
}

pub struct SignUpRequestView {
    pub username: Seq<char>,
    pub signature: Option<SignatureView>,
}

impl View for SignUpRequest {
    type V = SignUpRequestView;

    open spec fn view(&self) -> SignUpRequestView {
        SignUpRequestView {
            username: self.username@,
            signature: match self.signature {
                Some(signature) => Some(signature@),
                None => None,
            },
        }
    }
}

#[derive(Clone, Debug, PartialEq)]
pub struct SignUpResponse {}

#[derive(Clone, Debug, PartialEq)]
pub struct CommitRequest {
    pub username: String,
    pub commitment: Option<Commitment>,
}

pub struct CommitRequestView {
    pub username: Seq<char>,
    pub commitment: Option<CommitmentView>,
}

impl View for CommitRequest {
    type V = CommitRequestView;

    open spec fn view(&self) -> CommitRequestView {
        CommitRequestView {
            username: self.username@,
            commitment: match self.commitment {
                Some(commitment) => Some(commitment@),
                None => None,
            },
        }
    }
}

#[derive(Clone, Debug, PartialEq)]
pub struct CommitResponse {
    pub verifier_id: String,
    pub challenge: Option<Challenge>,
}

#[derive(Clone, Debug, PartialEq)]
pub struct AuthRequest {
    pub verifier_id: String,
    pub solution: Option<Solution>,
}

pub struct AuthRequestView {
    pub verifier_id: Seq<char>,
    pub solution: Option<Seq<u8>>,
}

impl View for AuthRequest {
    type V = AuthRequestView;

    open spec fn view(&self) -> AuthRequestView {
        AuthRequestView {
            verifier_id: self.verifier_id@,
            solution: match self.solution {
                Some(solution) => Some(solution.s@),
                None => None,
            },
        }
    }
}

#[derive(Clone, Debug, PartialEq)]
pub struct AuthResponse {
    pub session_id: String,
}

#[derive(Clone, Debug, PartialEq)]
pub struct GetPriceRequest {
    pub session_id: String,
    pub symbol: String,
}

#[derive(Clone, Debug, PartialEq)]
pub struct GetPriceResponse {
    pub symbol: String,
    pub price: String,
}

/// The names of the groups that the registry holds.
#[derive(Clone, Copy, Debug, PartialEq, Eq, Structural)]
pub enum Group {
    UnspecifiedGroup,
    ModP004BitQGroup,
    ModP160BitQGroup,
    ModP224BitQGroup,
    ModP256BitQGroup,
}

/// The name of a group in text.
pub open spec fn group_name(group: Group) -> Seq<char> {
    match group {
        Group::UnspecifiedGroup => "UNSPECIFIED_GROUP"@,
        Group::ModP004BitQGroup => "MOD_P_004_BIT_Q_GROUP"@,
        Group::ModP160BitQGroup => "MOD_P_160_BIT_Q_GROUP"@,
        Group::ModP224BitQGroup => "MOD_P_224_BIT_Q_GROUP"@,
        Group::ModP256BitQGroup => "MOD_P_256_BIT_Q_GROUP"@,
    }
}

/// No two groups share a name.
pub proof fn lemma_group_names_differ(a: Group, b: Group)
    requires
        a != b,
    ensures
        group_name(a) != group_name(b),
{
    reveal_strlit("UNSPECIFIED_GROUP");
    reveal_strlit("MOD_P_004_BIT_Q_GROUP");
    reveal_strlit("MOD_P_160_BIT_Q_GROUP");
    reveal_strlit("MOD_P_224_BIT_Q_GROUP");
    reveal_strlit("MOD_P_256_BIT_Q_GROUP");
    if group_name(a).len() == group_name(b).len() {
        assert(group_name(a)[6] != group_name(b)[6] || group_name(a)[7] != group_name(b)[7]
            || group_name(a)[8] != group_name(b)[8]);
    }
}

impl Group {
    /// The name of the group in text.
    pub fn as_str_name(&self) -> (name: &'static str)
        ensures
            name@ == group_name(*self),
    {
        match self {
            Group::UnspecifiedGroup => "UNSPECIFIED_GROUP",
            Group::ModP004BitQGroup => "MOD_P_004_BIT_Q_GROUP",
            Group::ModP160BitQGroup => "MOD_P_160_BIT_Q_GROUP",
            Group::ModP224BitQGroup => "MOD_P_224_BIT_Q_GROUP",
            Group::ModP256BitQGroup => "MOD_P_256_BIT_Q_GROUP",
        }
    }

    /// The group that `value` names, if it names one.
    pub fn from_str_name(value: &str) -> (group: Option<Self>)
        ensures
            match group {
                Some(g) => value@ == group_name(g),
                None => forall|g: Group| value@ != group_name(g),
            },
    {
        let text = String::from_str(value);
        if text == String::from_str("UNSPECIFIED_GROUP") {
            Some(Group::UnspecifiedGroup)
        } else if text == String::from_str("MOD_P_004_BIT_Q_GROUP") {
            Some(Group::ModP004BitQGroup)
        } else if text == String::from_str("MOD_P_160_BIT_Q_GROUP") {
            Some(Group::ModP160BitQGroup)
        } else if text == String::from_str("MOD_P_224_BIT_Q_GROUP") {
            Some(Group::ModP224BitQGroup)
        } else if text == String::from_str("MOD_P_256_BIT_Q_GROUP") {
            Some(Group::ModP256BitQGroup)
        } else {
            None
        }
    }
}

} // verus!
