//! Powers and remainders: the number theory that the protocol rests on.

use vstd::arithmetic::div_mod::*;
use vstd::arithmetic::mul::*;
use vstd::arithmetic::power::*;
use vstd::prelude::*;

verus! {

/// `base` to the power `exponent`, reduced modulo `modulus`.
pub open spec fn pow_mod(base: nat, exponent: nat, modulus: nat) -> nat {
    (pow(base as int, exponent) % (modulus as int)) as nat
}

/// Whether `n` is a prime number.
pub open spec fn is_prime(n: nat) -> bool {
    n >= 2 && forall|d: nat| 1 < d < n ==> #[trigger] (n % d) != 0
}

/// A power of a non-negative base is non-negative, and a remainder of it by
/// a positive modulus lies below the modulus.
pub proof fn lemma_pow_mod_bound(base: nat, exponent: nat, modulus: nat)
    requires
        modulus > 0,
    ensures
        pow(base as int, exponent) >= 0,
        pow_mod(base, exponent, modulus) < modulus,
        pow_mod(base, exponent, modulus) == pow(base as int, exponent) % (modulus as int),
{
    if exponent == 0 {
        lemma_pow0(base as int);
    } else if base == 0 {
        lemma0_pow(exponent);
    } else {
        lemma_pow_positive(base as int, exponent);
    }
    lemma_mod_bound(pow(base as int, exponent), modulus as int);
}

/// The remainder of a negative number: `-n mod m` is `(m - n mod m) mod m`.
pub proof fn lemma_mod_of_negative(n: nat, m: nat)
    requires
        m > 0,
    ensures
        (-(n as int)) % (m as int) == (m - n % m) % (m as int),
{
    let rest = (n % m) as int;
    let times = (n / m) as int;
    lemma_fundamental_div_mod(n as int, m as int);
    assert(-(n as int) == (m as int) * (-times - 1) + (m - rest)) by (nonlinear_arith)
        requires
            n as int == (m as int) * times + rest,
    ;
    lemma_mod_multiples_vanish(-times - 1, m - rest, m as int);
}

/// Raising an already reduced power to a further power:
/// `(a^x mod m)^c mod m == a^(x*c) mod m`.
pub proof fn lemma_pow_mod_of_pow_mod(a: nat, x: nat, c: nat, m: nat)
    requires
        m > 0,
    ensures
        pow_mod(pow_mod(a, x, m), c, m) == pow_mod(a, x * c, m),
{
    lemma_pow_mod_bound(a, x, m);
    lemma_pow_mod_noop(pow(a as int, x), c, m as int);
    lemma_pow_multiplies(a as int, x, c);
}

/// The product of two reduced powers of one base:
/// `(a^s mod m) * (a^t mod m) mod m == a^(s+t) mod m`.
pub proof fn lemma_pow_mod_adds(a: nat, s: nat, t: nat, m: nat)
    requires
        m > 0,
    ensures
        (pow_mod(a, s, m) * pow_mod(a, t, m)) % m == pow_mod(a, s + t, m),
        (pow(a as int, s) * pow(a as int, t)) % (m as int) == pow_mod(a, s + t, m),
{
    lemma_pow_mod_bound(a, s, m);
    lemma_pow_mod_bound(a, t, m);
    lemma_pow_mod_bound(a, s + t, m);
    lemma_pow_adds(a as int, s, t);
    lemma_mul_mod_noop(pow(a as int, s), pow(a as int, t), m as int);
}

/// Where `a^q mod m == 1`, every power of `a^q` is `1` modulo `m`.
proof fn lemma_unit_power(a: nat, q: nat, n: nat, m: nat)
    requires
        m > 1,
        pow_mod(a, q, m) == 1,
    ensures
        pow_mod(a, q * n, m) == 1,
{
    lemma_pow_mod_of_pow_mod(a, q, n, m);
    lemma1_pow(n);
    lemma_small_mod(1, m);
}

/// Where `a^q mod m == 1`, the exponent of `a` counts only modulo `q`.
pub proof fn lemma_pow_mod_period(a: nat, e: nat, q: nat, m: nat)
    requires
        m > 1,
        q > 0,
        pow_mod(a, q, m) == 1,
    ensures
        pow_mod(a, e, m) == pow_mod(a, e % q, m),
{
    let n = e / q;
    let r = e % q;
    lemma_fundamental_div_mod(e as int, q as int);
    lemma_unit_power(a, q, n, m);
    lemma_pow_mod_adds(a, q * n, r, m);
    lemma_pow_mod_bound(a, r, m);
    assert(q * n + r == e);
    assert((1 * pow_mod(a, r, m)) % m == pow_mod(a, e, m));
    lemma_small_mod(pow_mod(a, r, m), m);
}

/// Two exponents that agree modulo `q` give the same power, where
/// `a^q mod m == 1`.
pub proof fn lemma_pow_mod_congruent(a: nat, e1: nat, e2: nat, q: nat, m: nat)
    requires
        m > 1,
        q > 0,
        pow_mod(a, q, m) == 1,
        e1 % q == e2 % q,
    ensures
        pow_mod(a, e1, m) == pow_mod(a, e2, m),
{
    lemma_pow_mod_period(a, e1, q, m);
    lemma_pow_mod_period(a, e2, q, m);
}

/// Where `a^q mod m == 1` and `1 < a < m`, multiplying a power of `a` by `a`
/// changes it modulo `m`.
pub proof fn lemma_pow_mod_successor_differs(a: nat, e: nat, q: nat, m: nat)
    requires
        1 < a < m,
        q > 0,
        pow_mod(a, q, m) == 1,
    ensures
        pow_mod(a, e + 1, m) != pow_mod(a, e, m),
{
    if pow_mod(a, e + 1, m) == pow_mod(a, e, m) {
        // a^(q*(e+1) - e) undoes a^e: their product is a power of a^q.
        let inv = (q * (e + 1) - e) as nat;
        assert(q * (e + 1) >= e) by (nonlinear_arith)
            requires
                q > 0,
        ;
        lemma_unit_power(a, q, e + 1, m);
        lemma_pow_mod_adds(a, e, inv, m);
        lemma_pow_mod_adds(a, e + 1, inv, m);
        assert(e + inv == q * (e + 1));
        // (a^e * inv) mod m == 1, and (a^(e+1) * inv) mod m is the same number.
        assert(pow_mod(a, e + 1 + inv, m) == 1);
        lemma_pow_mod_adds(a, 1, e + inv, m);
        lemma_pow1(a as int);
        lemma_small_mod(a, m);
        assert(pow_mod(a, 1, m) == a);
        assert(1 + (e + inv) == e + 1 + inv);
        assert((a * 1) % m == 1);
        assert(false);
    }
}

} // verus!
