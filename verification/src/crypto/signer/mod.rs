//! The prover that keeps its secret: built step by step from small numbers.

use crate::bignum::number::at_least;
use crate::bignum::number::duplicate;
use crate::bignum::number::from_u32;
use crate::bignum::number::random_below;
use crate::bignum::number::value;
use crate::crypto::response;
use crate::crypto::signer::error::SignerError;
use crate::crypto::Challenge;
use crate::crypto::Commitment;
use crate::crypto::GroupView;
use crate::crypto::Solution;
use crate::grpc::auth::messages::Group;
use crate::zkp::registry::GroupRegistry;
use num_bigint::BigUint;
use vstd::prelude::*;

pub mod error;

verus! {

/// Collects the parameters of a [`Signer`]: first the generators, then the
/// moduli, then, if it is not to be drawn, the secret.
pub struct Builder {
    generators: Option<(BigUint, BigUint)>,
    moduli: Option<(BigUint, BigUint)>,
    x: Option<BigUint>,
}

/// What a [`Builder`] has been given so far.
pub struct BuilderView {
    pub generators: Option<(nat, nat)>,
    pub moduli: Option<(nat, nat)>,
    pub x: Option<nat>,
}

/// Whether `alpha` and `beta` can be the generators of a group.
pub open spec fn valid_generators(alpha: nat, beta: nat) -> bool {
    alpha > 1 && beta > 1 && alpha != beta
}

/// Whether `p` and `q` can be the moduli of a group with these generators.
pub open spec fn valid_moduli(generators: (nat, nat), p: nat, q: nat) -> bool {
    0 < q < p && generators.0 < p && generators.1 < p
}

impl BuilderView {
    /// The first fault that keeps a signer from being built, if there is one.
    pub open spec fn fault(self) -> Option<SignerFault> {
        match (self.generators, self.moduli) {
            (None, _) => Some(SignerFault::GeneratorsNotSet),
            (Some(_), None) => Some(SignerFault::ModuliNotSet),
            (Some(g), Some(m)) => if !valid_generators(g.0, g.1) {
                Some(SignerFault::InvalidGenerators)
            } else if !valid_moduli(g, m.0, m.1) {
                Some(SignerFault::InvalidModuli)
            } else if self.x is Some && self.x->0 >= m.1 {
                Some(SignerFault::InvalidSecret)
            } else {
                None
            },
        }
    }

    /// The group that the generators and moduli make up.
    pub open spec fn group(self) -> GroupView
        recommends
            self.generators is Some,
            self.moduli is Some,
    {
        let (p, q) = self.moduli->0;
        let (alpha, beta) = self.generators->0;
        GroupView { p, q, alpha, beta }
    }
}

/// The kinds of [`SignerError`], without the numbers.
pub enum SignerFault {
    GeneratorsNotSet,
    ModuliNotSet,
    InvalidGenerators,
    InvalidModuli,
    InvalidSecret,
}

/// Whether `error` reports `fault` for what the builder `b` holds.
pub open spec fn reports(error: SignerError, fault: SignerFault, b: BuilderView) -> bool {
    match fault {
        SignerFault::GeneratorsNotSet => error is GeneratorsNotSet,
        SignerFault::ModuliNotSet => error is ModuliNotSet,
        SignerFault::InvalidGenerators => error matches SignerError::InvalidGenerators((alpha, beta))
            && b.generators == Some((value(alpha), value(beta))),
        SignerFault::InvalidModuli => error matches SignerError::InvalidModuli((p, q))
            && b.moduli == Some((value(p), value(q))),
        SignerFault::InvalidSecret => error is InvalidSecret,
    }
}

impl Builder {
    pub closed spec fn view(&self) -> BuilderView {
        BuilderView {
            generators: match self.generators {
                Some((alpha, beta)) => Some((value(alpha), value(beta))),
                None => None,
            },
            moduli: match self.moduli {
                Some((p, q)) => Some((value(p), value(q))),
                None => None,
            },
            x: match self.x {
                Some(x) => Some(value(x)),
                None => None,
            },
        }
    }

    /// A builder that has been given nothing yet.
    pub fn new() -> (b: Self)
        ensures
            b@ == (BuilderView { generators: None, moduli: None, x: None }),
    {
        Self { generators: None, moduli: None, x: None }
    }

    /// Sets the generators. They must exceed one and differ.
    pub fn with_generators(self, alpha: u32, beta: u32) -> (res: Result<Self, SignerError>)
        ensures
            res is Ok <==> valid_generators(alpha as nat, beta as nat),
            res matches Ok(b) ==> b@ == (BuilderView {
                generators: Some((alpha as nat, beta as nat)),
                ..self@
            }),
            res matches Err(e) ==> e matches SignerError::InvalidGenerators((a, b)) && value(a)
                == alpha && value(b) == beta,
    {
        if alpha <= 1 || beta <= 1 || alpha == beta {
            return Err(SignerError::InvalidGenerators((from_u32(alpha), from_u32(beta))));
        }
        let mut b = self;
        b.generators = Some((from_u32(alpha), from_u32(beta)));
        Ok(b)
    }

    /// Sets generators and moduli in one step: the generators first, then
    /// the moduli.
    pub fn with_group(self, p: u32, q: u32, alpha: u32, beta: u32) -> (res: Result<
        Self,
        SignerError,
    >)
        ensures
            res is Ok <==> valid_generators(alpha as nat, beta as nat) && valid_moduli(
                (alpha as nat, beta as nat),
                p as nat,
                q as nat,
            ),
            res matches Ok(b) ==> b@ == (BuilderView {
                generators: Some((alpha as nat, beta as nat)),
                moduli: Some((p as nat, q as nat)),
                ..self@
            }),
            res matches Err(e) ==> if !valid_generators(alpha as nat, beta as nat) {
                e matches SignerError::InvalidGenerators((a, b)) && value(a) == alpha && value(b)
                    == beta
            } else {
                e matches SignerError::InvalidModuli((a, b)) && value(a) == p && value(b) == q
            },
    {
        match self.with_generators(alpha, beta) {
            Ok(b) => b.with_moduli(p, q),
            Err(e) => Err(e),
        }
    }

    /// Sets generators and moduli to those of the registry's group with a
    /// 2048-bit `p` and a 256-bit `q`.
    pub fn with_2048_bit_group(self, registry: &GroupRegistry) -> (b: Self)
        ensures
            registry.group(Group::ModP256BitQGroup) matches Some(g) && b@ == (BuilderView {
                generators: Some((g.alpha, g.beta)),
                moduli: Some((g.p, g.q)),
                ..self@
            }),
    {
        let mut b = self;
        match registry.lookup(Group::ModP256BitQGroup) {
            Ok(params) => {
                let group = params.group();
                b.generators = Some((duplicate(&group.alpha), duplicate(&group.beta)));
                b.moduli = Some((duplicate(&group.p), duplicate(&group.q)));
            },
            Err(_) => {},
        }
        b
    }

    /// Sets the moduli, once the generators are set. `q` must be positive
    /// and below `p`, and both generators must be below `p`.
    pub fn with_moduli(self, p: u32, q: u32) -> (res: Result<Self, SignerError>)
        ensures
            res is Ok <==> self@.generators is Some && valid_moduli(
                self@.generators->0,
                p as nat,
                q as nat,
            ),
            res matches Ok(b) ==> b@ == (BuilderView { moduli: Some((p as nat, q as nat)), ..self@ }),
            res matches Err(e) ==> if self@.generators is None {
                e is GeneratorsNotSet
            } else {
                e matches SignerError::InvalidModuli((a, b)) && value(a) == p && value(b) == q
            },
    {
        let fits = match &self.generators {
            None => {
                return Err(SignerError::GeneratorsNotSet);
            },
            Some((alpha, beta)) => {
                let big_p = from_u32(p);
                0 < q && q < p && !at_least(alpha, &big_p) && !at_least(beta, &big_p)
            },
        };
        if !fits {
            return Err(SignerError::InvalidModuli((from_u32(p), from_u32(q))));
        }
        let mut b = self;
        b.moduli = Some((from_u32(p), from_u32(q)));
        Ok(b)
    }

    /// Sets the secret, once generators and moduli are set. It must be
    /// below `q`.
    pub fn with_secret(self, x: u32) -> (res: Result<Self, SignerError>)
        ensures
            res is Ok <==> self@.generators is Some && (self@.moduli matches Some(m) && x < m.1),
            res matches Ok(b) ==> b@ == (BuilderView { x: Some(x as nat), ..self@ }),
            res matches Err(e) ==> if self@.generators is None {
                e is GeneratorsNotSet
            } else if self@.moduli is None {
                e is ModuliNotSet
            } else {
                e is InvalidSecret
            },
    {
        if self.generators.is_none() {
            return Err(SignerError::GeneratorsNotSet);
        }
        let below = match &self.moduli {
            None => {
                return Err(SignerError::ModuliNotSet);
            },
            Some((_, q)) => !at_least(&from_u32(x), q),
        };
        if !below {
            return Err(SignerError::InvalidSecret);
        }
        let mut b = self;
        b.x = Some(from_u32(x));
        Ok(b)
    }

    /// Draws the secret below `q`, once generators and moduli are set.
    pub fn with_random_secret(self) -> (res: Result<Self, SignerError>)
        ensures
            res is Ok <==> self@.generators is Some && (self@.moduli matches Some(m) && m.1 > 0),
            res matches Ok(b) ==> b@.generators == self@.generators && b@.moduli == self@.moduli
                && (b@.x matches Some(x) && x < (b@.moduli->0).1),
            res matches Err(e) ==> if self@.generators is None {
                e is GeneratorsNotSet
            } else if self@.moduli is None {
                e is ModuliNotSet
            } else {
                e matches SignerError::InvalidModuli((a, b)) && self@.moduli == Some(
                    (value(a), value(b)),
                )
            },
    {
        if self.generators.is_none() {
            return Err(SignerError::GeneratorsNotSet);
        }
        let x = match &self.moduli {
            None => {
                return Err(SignerError::ModuliNotSet);
            },
            Some((p, q)) => {
                if at_least(&from_u32(0), q) {
                    return Err(SignerError::InvalidModuli((duplicate(p), duplicate(q))));
                }
                random_below(q)
            },
        };
        let mut b = self;
        b.x = Some(x);
        Ok(b)
    }

    /// Builds the signer: tests once more that the parts fit together, draws
    /// the secret below `q` unless one was set, and draws the nonce `k`
    /// below `q`.
    pub fn build(&self) -> (res: Result<Signer, SignerError>)
        ensures
            res is Ok <==> self@.fault() is None,
            res matches Ok(signer) ==> {
                &&& signer@.group == self@.group()
                &&& signer@.group.well_formed()
                &&& signer@.x < signer@.group.q
                &&& signer@.k < signer@.group.q
                &&& self@.x matches Some(x) ==> signer@.x == x
            },
            res matches Err(e) ==> self@.fault() matches Some(fault) && reports(e, fault, self@),
    {
        let (alpha, beta) = match &self.generators {
            Some((alpha, beta)) => (duplicate(alpha), duplicate(beta)),
            None => {
                return Err(SignerError::GeneratorsNotSet);
            },
        };
        let (p, q) = match &self.moduli {
            Some((p, q)) => (duplicate(p), duplicate(q)),
            None => {
                return Err(SignerError::ModuliNotSet);
            },
        };
        let one = from_u32(1);
        if at_least(&one, &alpha) || at_least(&one, &beta) || at_least(&alpha, &beta) && at_least(
            &beta,
            &alpha,
        ) {
            return Err(SignerError::InvalidGenerators((alpha, beta)));
        }
        if at_least(&from_u32(0), &q) || at_least(&q, &p) || at_least(&alpha, &p) || at_least(
            &beta,
            &p,
        ) {
            return Err(SignerError::InvalidModuli((p, q)));
        }
        let x = match &self.x {
            Some(x) => {
                if at_least(x, &q) {
                    return Err(SignerError::InvalidSecret);
                }
                duplicate(x)
            },
            None => random_below(&q),
        };
        let k = random_below(&q);
        Ok(Signer { group: crate::crypto::Group { p, q, alpha, beta }, x, k })
    }
}

/// A prover: a group, the secret `x`, and the nonce `k` of the proof at hand.
pub struct Signer {
    group: crate::crypto::Group,
    x: BigUint,
    k: BigUint,
}

/// A [`Signer`] as natural numbers.
pub struct SignerView {
    pub group: GroupView,
    pub x: nat,
    pub k: nat,
}

impl Signer {
    #[verifier::type_invariant]
    spec fn group_is_well_formed(self) -> bool {
        self.group@.well_formed()
    }

    pub closed spec fn view(&self) -> SignerView {
        SignerView { group: self.group@, x: value(self.x), k: value(self.k) }
    }

    /// States what is to be proved: the group, the signature `y` of the
    /// secret and the commitment `r` of the nonce.
    pub fn create_statement(&self) -> (statement: Commitment)
        ensures
            statement.group@ == self@.group,
            statement.group@.well_formed(),
            (value(statement.y.0), value(statement.y.1)) == self@.group.powers(self@.x),
            (value(statement.r.0), value(statement.r.1)) == self@.group.powers(self@.k),
    {
        proof {
            use_type_invariant(self);
        }
        let y = self.group.powers(&self.x);
        let r = self.group.powers(&self.k);
        Commitment { group: self.group.clone(), y, r }
    }

    /// Answers the challenge `c`: `s = k - c*x` modulo `q`, the least
    /// non-negative remainder.
    pub fn solve_challenge(&self, c: Challenge) -> (s: Solution)
        ensures
            value(s) == response(self@.k, value(c), self@.x, self@.group.q),
            value(s) < self@.group.q,
    {
        proof {
            use_type_invariant(self);
        }
        self.group.respond(&self.k, &self.x, &c)
    }

    /// Replaces the nonce by `k`.
    pub fn override_k(&mut self, k: u32)
        ensures
            final(self)@ == (SignerView { k: k as nat, ..old(self)@ }),
    {
        proof {
            use_type_invariant(&*self);
        }
        self.k = from_u32(k);
    }

    /// The order `q` of the group.
    pub fn q(&self) -> (q: &BigUint)
        ensures
            value(*q) == self@.group.q,
    {
        &self.group.q
    }
}

} // verus!
