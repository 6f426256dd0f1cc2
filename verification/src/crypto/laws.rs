//! What holds of every run of the proof between an honest prover and the
//! verifier.

use crate::bignum::modular::lemma_pow_mod_adds;
use crate::bignum::modular::lemma_pow_mod_bound;
use crate::bignum::modular::lemma_pow_mod_congruent;
use crate::bignum::modular::lemma_pow_mod_of_pow_mod;
use crate::bignum::modular::lemma_pow_mod_period;
use crate::bignum::modular::lemma_pow_mod_successor_differs;
use crate::bignum::modular::pow_mod;
use crate::crypto::accepts;
use crate::crypto::response;
use crate::crypto::GroupView;
use vstd::arithmetic::div_mod::*;
use vstd::arithmetic::mul::*;
use vstd::arithmetic::power::*;
use vstd::prelude::*;

verus! {

/// In a Schnorr group both generators have order `q`: their `q`-th powers
/// are `1` modulo `p`, and `p` exceeds `1`.
pub proof fn lemma_generators_have_order_q(g: GroupView)
    requires
        g.is_schnorr_group(),
    ensures
        g.p > 1,
        g.q > 0,
        pow_mod(g.alpha, g.q, g.p) == 1,
        pow_mod(g.beta, g.q, g.p) == 1,
{
    let r = choose|r: nat| 1 <= r < g.q && g.beta == #[trigger] pow_mod(g.alpha, r, g.p);
    lemma_pow_mod_of_pow_mod(g.alpha, r, g.q, g.p);
    lemma_mul_is_commutative(r as int, g.q as int);
    lemma_pow_mod_period(g.alpha, g.q * r, g.q, g.p);
    lemma_mod_multiples_basic(r as int, g.q as int);
    lemma_pow0(g.alpha as int);
    lemma_small_mod(1, g.p);
}

/// The value that the verifier compares a commitment with, for a base `a` of
/// order `q`: `a^s * (a^x)^c` is `a^e` modulo `p` for every `e` that agrees
/// with `s + c*x` modulo `q`.
proof fn lemma_check_value(a: nat, x: nat, c: nat, s: nat, e: nat, q: nat, p: nat)
    requires
        p > 1,
        q > 0,
        pow_mod(a, q, p) == 1,
        (s + c * x) % q == e % q,
    ensures
        (pow(a as int, s) * pow(pow_mod(a, x, p) as int, c)) % (p as int) == pow_mod(a, e, p),
{
    let y = pow_mod(a, x, p);
    lemma_pow_mod_bound(a, s, p);
    lemma_pow_mod_bound(y, c, p);
    lemma_mul_mod_noop(pow(a as int, s), pow(y as int, c), p as int);
    lemma_pow_mod_of_pow_mod(a, x, c, p);
    lemma_pow_mod_adds(a, s, x * c, p);
    lemma_mul_is_commutative(x as int, c as int);
    lemma_pow_mod_congruent(a, s + c * x, e, q, p);
}

/// The answer makes up for `c*x` modulo `q`, and it lies below `q`.
pub proof fn lemma_response_congruent(k: nat, c: nat, x: nat, q: nat)
    requires
        q > 0,
    ensures
        (response(k, c, x, q) + c * x) % q == k % q,
        response(k, c, x, q) < q,
{
    let m = q as int;
    let cx = (c * x) as int;
    let ki = k as int;
    lemma_mod_bound(ki - cx, m);
    lemma_add_mod_noop(ki - cx, cx, m);
    lemma_mod_twice(cx, m);
    lemma_add_mod_noop((ki - cx) % m, cx, m);
    lemma_mod_twice(ki - cx, m);
    assert(((ki - cx) % m + cx) % m == ki % m);
}

/// Correctness: in every Schnorr group, for every secret `x`, nonce `k` and
/// challenge `c` below `q`, the verifier accepts the honest answer
/// `s = (k - c*x) mod q`.
pub proof fn law_honest_answer_is_accepted(g: GroupView, x: nat, k: nat, c: nat)
    requires
        g.is_schnorr_group(),
        x < g.q,
        k < g.q,
        c < g.q,
    ensures
        accepts(g, g.powers(x), g.powers(k), c, response(k, c, x, g.q)),
{
    lemma_generators_have_order_q(g);
    lemma_response_congruent(k, c, x, g.q);
    let s = response(k, c, x, g.q);
    lemma_check_value(g.alpha, x, c, s, k, g.q, g.p);
    lemma_check_value(g.beta, x, c, s, k, g.q, g.p);
}

/// Adding one to an answer, modulo `q`, adds one to what it makes up for.
proof fn lemma_successor_congruent(s: nat, cx: nat, k: nat, q: nat)
    requires
        q > 0,
        (s + cx) % q == k % q,
    ensures
        ((s + 1) % q + cx) % q == (k + 1) % q,
{
    let m = q as int;
    lemma_add_mod_noop((s + 1) as int, cx as int, m);
    lemma_add_mod_noop(((s + 1) % q) as int, cx as int, m);
    lemma_mod_twice((s + 1) as int, m);
    lemma_add_mod_noop((s + cx) as int, 1, m);
    lemma_add_mod_noop(k as int, 1, m);
}

/// Soundness, in one spot: in the same setting the verifier rejects the
/// answer that is off by one, `(s + 1) mod q`.
pub proof fn law_answer_off_by_one_is_rejected(g: GroupView, x: nat, k: nat, c: nat)
    requires
        g.is_schnorr_group(),
        x < g.q,
        k < g.q,
        c < g.q,
    ensures
        !accepts(g, g.powers(x), g.powers(k), c, (response(k, c, x, g.q) + 1) % g.q),
{
    lemma_generators_have_order_q(g);
    lemma_response_congruent(k, c, x, g.q);
    let s = response(k, c, x, g.q);
    lemma_successor_congruent(s, c * x, k, g.q);
    lemma_check_value(g.alpha, x, c, (s + 1) % g.q, k + 1, g.q, g.p);
    lemma_pow_mod_successor_differs(g.alpha, k, g.q, g.p);
}

/// Response range: for every nonce, challenge and secret, whether `k`
/// reaches `c*x` or not, the answer lies in `[0, q)` and makes up for `c*x`
/// modulo `q`.
pub proof fn law_response_range(k: nat, c: nat, x: nat, q: nat)
    requires
        q > 0,
    ensures
        0 <= response(k, c, x, q) < q,
        (response(k, c, x, q) + c * x) % q == k % q,
{
    lemma_response_congruent(k, c, x, q);
}

/// The answer is the only number below `q` that makes up for `c*x` modulo
/// `q`.
pub proof fn law_response_is_unique(s: nat, k: nat, c: nat, x: nat, q: nat)
    requires
        q > 0,
        s < q,
        (s + c * x) % q == k % q,
    ensures
        s == response(k, c, x, q),
{
    lemma_response_congruent(k, c, x, q);
    let m = q as int;
    let r = response(k, c, x, q) as int;
    let cx = (c * x) as int;
    lemma_mod_equivalence(s + cx, r + cx, m);
    lemma_mod_equivalence(r + cx, s + cx, m);
    if s >= r {
        lemma_small_mod((s - r) as nat, q);
    } else {
        lemma_small_mod((r - s) as nat, q);
    }
}

} // verus!
