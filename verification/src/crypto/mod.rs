//! The Chaum–Pedersen proof that two powers share one exponent, over numbers.
//!
//! A prover who knows `x` with `y1 = alpha^x` and `y2 = beta^x` (modulo `p`)
//! commits to `r1 = alpha^k`, `r2 = beta^k`, is challenged with `c`, and
//! answers with `s = k - c*x` modulo `q`. The verifier accepts where
//! `r1 = alpha^s * y1^c` and `r2 = beta^s * y2^c` modulo `p`.

use crate::bignum::modular::is_prime;
use crate::bignum::modular::lemma_mod_of_negative;
use crate::bignum::modular::pow_mod;
use crate::bignum::number::at_least;
use crate::bignum::number::difference;
use crate::bignum::number::duplicate;
use crate::bignum::number::from_u32;
use crate::bignum::number::modpow;
use crate::bignum::number::product;
use crate::bignum::number::same;
use crate::bignum::number::value;
use num_bigint::BigUint;
use vstd::arithmetic::div_mod::*;
use vstd::arithmetic::power::*;
use vstd::prelude::*;

pub mod laws;
pub mod signer;
pub mod verification;

verus! {

/// A challenge is a number below `q`.
pub type Challenge = BigUint;

/// A solution is the prover's answer to a challenge.
pub type Solution = BigUint;

/// The parameters of a group: the moduli `p` and `q` and the two generators.
pub struct Group {
    pub p: BigUint,
    pub q: BigUint,
    pub alpha: BigUint,
    pub beta: BigUint,
}

/// What a prover states: the group, the signature `y = (alpha^x, beta^x)` of
/// its secret, and the commitment `r = (alpha^k, beta^k)` of its nonce.
pub struct Commitment {
    pub group: Group,
    pub y: (BigUint, BigUint),
    pub r: (BigUint, BigUint),
}

/// A group's parameters as natural numbers.
pub struct GroupView {
    pub p: nat,
    pub q: nat,
    pub alpha: nat,
    pub beta: nat,
}

impl GroupView {
    /// The relations between the parameters that can be tested by comparing
    /// them: the generators differ, exceed one and lie below `p`, and `q` is
    /// positive and below `p`.
    pub open spec fn well_formed(self) -> bool {
        &&& self.alpha != self.beta
        &&& self.alpha > 1
        &&& self.beta > 1
        &&& self.alpha < self.p
        &&& self.beta < self.p
        &&& 0 < self.q < self.p
    }

    /// A subgroup of prime order `q` of the integers modulo a prime `p`:
    /// `q` divides `p - 1`, `alpha` generates the subgroup, and `beta` is a
    /// power `alpha^r` of it with `1 <= r < q`.
    pub open spec fn is_schnorr_group(self) -> bool {
        &&& self.well_formed()
        &&& is_prime(self.p)
        &&& is_prime(self.q)
        &&& (self.p - 1) % (self.q as int) == 0
        &&& pow_mod(self.alpha, self.q, self.p) == 1
        &&& exists|r: nat| 1 <= r < self.q && self.beta == #[trigger] pow_mod(self.alpha, r, self.p)
    }

    /// The pair `(alpha^e mod p, beta^e mod p)`: a signature where `e` is the
    /// secret, a commitment where `e` is the nonce.
    pub open spec fn powers(self, e: nat) -> (nat, nat) {
        (pow_mod(self.alpha, e, self.p), pow_mod(self.beta, e, self.p))
    }
}

/// The answer to challenge `c` of a prover with nonce `k` and secret `x`:
/// `k - c*x` modulo `q`, the least non-negative remainder.
pub open spec fn response(k: nat, c: nat, x: nat, q: nat) -> nat {
    ((k - c * x) % (q as int)) as nat
}

/// Whether `s` answers challenge `c` for signature `y` and commitment `r`:
/// `r1 == alpha^s * y1^c mod p` and `r2 == beta^s * y2^c mod p`.
pub open spec fn accepts(g: GroupView, y: (nat, nat), r: (nat, nat), c: nat, s: nat) -> bool {
    &&& r.0 == (pow(g.alpha as int, s) * pow(y.0 as int, c)) % (g.p as int)
    &&& r.1 == (pow(g.beta as int, s) * pow(y.1 as int, c)) % (g.p as int)
}

impl View for Group {
    type V = GroupView;

    open spec fn view(&self) -> GroupView {
        GroupView {
            p: value(self.p),
            q: value(self.q),
            alpha: value(self.alpha),
            beta: value(self.beta),
        }
    }
}

impl Clone for Group {
    fn clone(&self) -> (copy: Self)
        ensures
            copy@ == self@,
    {
        Group {
            p: duplicate(&self.p),
            q: duplicate(&self.q),
            alpha: duplicate(&self.alpha),
            beta: duplicate(&self.beta),
        }
    }
}

impl Group {
    /// Tests the relations of [`GroupView::well_formed`].
    pub fn is_well_formed(&self) -> (ok: bool)
        ensures
            ok == self@.well_formed(),
    {
        let zero = from_u32(0);
        let one = from_u32(1);
        !same(&self.alpha, &self.beta) && !at_least(&one, &self.alpha) && !at_least(
            &one,
            &self.beta,
        ) && !at_least(&self.alpha, &self.p) && !at_least(&self.beta, &self.p) && !at_least(
            &zero,
            &self.q,
        ) && !at_least(&self.q, &self.p)
    }

    /// Raises both generators to the power `e`, modulo `p`.
    pub fn powers(&self, e: &BigUint) -> (pair: (BigUint, BigUint))
        requires
            self@.p != 0,
        ensures
            (value(pair.0), value(pair.1)) == self@.powers(value(*e)),
    {
        (modpow(&self.alpha, e, &self.p), modpow(&self.beta, e, &self.p))
    }

    /// Reduces `n` modulo `q`.
    pub fn reduce(&self, n: &BigUint) -> (r: BigUint)
        requires
            self@.q != 0,
        ensures
            value(r) == value(*n) % self@.q,
    {
        let one = from_u32(1);
        proof {
            lemma_pow1(value(*n) as int);
        }
        modpow(n, &one, &self.q)
    }

    /// Answers challenge `c` for nonce `k` and secret `x`: where `k >= c*x`
    /// with `(k - c*x) mod q`, and otherwise with `q - ((c*x - k) mod q)`,
    /// reduced once more so that it lies below `q`.
    pub fn respond(&self, k: &BigUint, x: &BigUint, c: &BigUint) -> (s: BigUint)
        requires
            self@.q != 0,
        ensures
            value(s) == response(value(*k), value(*c), value(*x), self@.q),
            value(s) < self@.q,
    {
        proof {
            lemma_mod_bound(value(*k) - value(*c) * value(*x), self@.q as int);
        }
        let cx = product(c, x);
        if at_least(k, &cx) {
            let gap = difference(k, &cx);
            self.reduce(&gap)
        } else {
            let gap = difference(&cx, k);
            let rest = self.reduce(&gap);
            proof {
                lemma_mod_bound(value(gap) as int, self@.q as int);
                lemma_mod_of_negative(value(gap), self@.q);
            }
            self.reduce(&difference(&self.q, &rest))
        }
    }

    /// Tests whether `s` answers challenge `c` for signature `y` and
    /// commitment `r`.
    pub fn check(
        &self,
        y: (&BigUint, &BigUint),
        r: (&BigUint, &BigUint),
        c: &BigUint,
        s: &BigUint,
    ) -> (ok: bool)
        requires
            self@.p != 0,
        ensures
            ok == accepts(
                self@,
                (value(*y.0), value(*y.1)),
                (value(*r.0), value(*r.1)),
                value(*c),
                value(*s),
            ),
    {
        let one = from_u32(1);
        let left = product(&modpow(&self.alpha, s, &self.p), &modpow(y.0, c, &self.p));
        let right = product(&modpow(&self.beta, s, &self.p), &modpow(y.1, c, &self.p));
        proof {
            let p = self@.p as int;
            lemma_pow1(value(left) as int);
            lemma_pow1(value(right) as int);
            lemma_mul_mod_noop(pow(self@.alpha as int, value(*s)), pow(value(*y.0) as int, value(*c)), p);
            lemma_mul_mod_noop(pow(self@.beta as int, value(*s)), pow(value(*y.1) as int, value(*c)), p);
        }
        let first = same(r.0, &modpow(&left, &one, &self.p));
        let second = same(r.1, &modpow(&right, &one, &self.p));
        first && second
    }
}

} // verus!
