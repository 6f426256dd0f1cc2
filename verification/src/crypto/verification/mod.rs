//! The verifier of one proof: it holds the statement and its challenge.

use crate::bignum::number::duplicate;
use crate::bignum::number::from_u32;
use crate::bignum::number::random_below;
use crate::bignum::number::value;
use crate::crypto::accepts;
use crate::crypto::Challenge;
use crate::crypto::Commitment;
use crate::crypto::Group;
use crate::crypto::GroupView;
use crate::crypto::Solution;
use num_bigint::BigUint;
use vstd::prelude::*;

verus! {

/// A group, a signature `y`, a commitment `r`, and the challenge `c` that the
/// prover has to answer.
pub struct Verifier {
    group: Group,
    y: (BigUint, BigUint),
    r: (BigUint, BigUint),
    c: BigUint,
}

/// A [`Verifier`] as natural numbers.
pub struct VerifierView {
    pub group: GroupView,
    pub y: (nat, nat),
    pub r: (nat, nat),
    pub c: nat,
}

impl VerifierView {
    /// Whether the verifier accepts the answer `s`.
    pub open spec fn accepts(self, s: nat) -> bool {
        accepts(self.group, self.y, self.r, self.c, s)
    }
}

impl Verifier {
    #[verifier::type_invariant]
    spec fn group_is_well_formed(self) -> bool {
        self.group@.well_formed()
    }

    pub closed spec fn view(&self) -> VerifierView {
        VerifierView {
            group: self.group@,
            y: (value(self.y.0), value(self.y.1)),
            r: (value(self.r.0), value(self.r.1)),
            c: value(self.c),
        }
    }

    /// A verifier of `statement` with the challenge `c`.
    pub fn with_challenge(statement: Commitment, c: Challenge) -> (verifier: Self)
        requires
            statement.group@.well_formed(),
        ensures
            verifier@ == (VerifierView {
                group: statement.group@,
                y: (value(statement.y.0), value(statement.y.1)),
                r: (value(statement.r.0), value(statement.r.1)),
                c: value(c),
            }),
    {
        Verifier { group: statement.group, y: statement.y, r: statement.r, c }
    }

    /// A verifier of `statement` with a challenge drawn below `q`.
    pub fn from(statement: Commitment) -> (verifier: Self)
        requires
            statement.group@.well_formed(),
        ensures
            verifier@.group == statement.group@,
            verifier@.y == (value(statement.y.0), value(statement.y.1)),
            verifier@.r == (value(statement.r.0), value(statement.r.1)),
            verifier@.c < verifier@.group.q,
    {
        let c = random_below(&statement.group.q);
        Self::with_challenge(statement, c)
    }

    /// Replaces the challenge by `c`.
    pub fn override_c(&mut self, c: u32)
        ensures
            final(self)@ == (VerifierView { c: c as nat, ..old(self)@ }),
    {
        proof {
            use_type_invariant(&*self);
        }
        self.c = from_u32(c);
    }

    /// The challenge.
    pub fn create_challenge(&self) -> (c: Challenge)
        ensures
            value(c) == self@.c,
    {
        duplicate(&self.c)
    }

    /// Tests the answer `s`: whether `r1 == alpha^s * y1^c` and
    /// `r2 == beta^s * y2^c` modulo `p`.
    pub fn verify_solution(&self, s: Solution) -> (ok: bool)
        ensures
            ok == self@.accepts(value(s)),
    {
        proof {
            use_type_invariant(self);
        }
        self.group.check((&self.y.0, &self.y.1), (&self.r.0, &self.r.1), &self.c, &s)
    }
}

} // verus!
