//! The arithmetic of `num_bigint::BigUint`, as far as the protocol uses it.
//!
//! Verus does not look inside a `BigUint`. What a value denotes is told by
//! [`value`], and every function here whose body Verus does not read states
//! what one operation of `num-bigint` returns over the numbers that its
//! arguments denote. None of these statements is proved.

use num_bigint::BigUint;
use num_bigint::RandBigInt;
use vstd::arithmetic::power::pow;
use vstd::prelude::*;
use crate::bignum::encoding::be_value;
use crate::bignum::encoding::decimal;
use crate::bignum::encoding::is_minimal;
use crate::bignum::encoding::lemma_minimal_is_unique;
use crate::bignum::encoding::minimal_bytes;

verus! {

/// `num_bigint::BigUint`, an unsigned integer of any size. Nothing of its
/// inside is known here.
#[verifier::external_type_specification]
#[verifier::external_body]
pub struct ExBigUint(num_bigint::BigUint);

/// The bytes that a `BigUint` holds, most significant first, as
/// `BigUint::to_bytes_be` hands them out.
pub uninterp spec fn be_bytes_of(n: BigUint) -> Seq<u8>;

/// The natural number that a `BigUint` denotes.
pub open spec fn value(n: BigUint) -> nat {
    be_value(be_bytes_of(n))
}

/// `BigUint::to_bytes_be`: the bytes of the number, most significant first,
/// in the shortest form (zero is the single byte `0`).
#[verifier::external_body]
pub(crate) fn to_bytes_be(n: &BigUint) -> (bytes: Vec<u8>)
    ensures
        bytes@ == be_bytes_of(*n),
        is_minimal(bytes@),
{
    n.to_bytes_be()
}

/// The shortest big-endian byte string of a number, as the wire carries it.
pub fn encode(n: &BigUint) -> (bytes: Vec<u8>)
    ensures
        bytes@ == minimal_bytes(value(*n)),
{
    let bytes = to_bytes_be(n);
    proof {
        lemma_minimal_is_unique(bytes@);
    }
    bytes
}

/// `BigUint::from_bytes_be`: the number that the bytes denote, most
/// significant first. Every byte string is accepted.
#[verifier::external_body]
pub(crate) fn from_bytes_be(bytes: &[u8]) -> (n: BigUint)
    ensures
        value(n) == be_value(bytes@),
{
    BigUint::from_bytes_be(bytes)
}

/// `BigUint::modpow`: `base` to the power `exponent`, reduced modulo
/// `modulus`. The outside function panics on a zero modulus.
#[verifier::external_body]
pub(crate) fn modpow(base: &BigUint, exponent: &BigUint, modulus: &BigUint) -> (r: BigUint)
    requires
        value(*modulus) != 0,
    ensures
        value(r) == pow(value(*base) as int, value(*exponent)) % (value(*modulus) as int),
{
    base.modpow(exponent, modulus)
}

/// `&a * &b` on `BigUint`: the product.
#[verifier::external_body]
pub(crate) fn product(a: &BigUint, b: &BigUint) -> (r: BigUint)
    ensures
        value(r) == value(*a) * value(*b),
{
    a * b
}

/// `&a + &b` on `BigUint`: the sum.
#[verifier::external_body]
pub(crate) fn sum(a: &BigUint, b: &BigUint) -> (r: BigUint)
    ensures
        value(r) == value(*a) + value(*b),
{
    a + b
}

/// `&a - &b` on `BigUint`: the difference. The outside operator panics where
/// `b` is the larger.
#[verifier::external_body]
pub(crate) fn difference(a: &BigUint, b: &BigUint) -> (r: BigUint)
    requires
        value(*a) >= value(*b),
    ensures
        value(r) == value(*a) - value(*b),
{
    a - b
}

/// `a >= b` on `BigUint`: the order of the numbers.
#[verifier::external_body]
pub(crate) fn at_least(a: &BigUint, b: &BigUint) -> (r: bool)
    ensures
        r == (value(*a) >= value(*b)),
{
    a >= b
}

/// `a == b` on `BigUint`: two values are equal where they denote one number.
#[verifier::external_body]
pub(crate) fn same(a: &BigUint, b: &BigUint) -> (r: bool)
    ensures
        r == (value(*a) == value(*b)),
{
    a == b
}

/// `BigUint::from` on a `u32`: the same number.
#[verifier::external_body]
pub(crate) fn from_u32(x: u32) -> (r: BigUint)
    ensures
        value(r) == x,
{
    BigUint::from(x)
}

/// `BigUint::clone`: a second value that denotes the same number.
#[verifier::external_body]
pub(crate) fn duplicate(n: &BigUint) -> (r: BigUint)
    ensures
        value(r) == value(*n),
{
    n.clone()
}

/// `BigUint::to_string`: the number in decimal digits.
#[verifier::external_body]
pub(crate) fn to_decimal(n: &BigUint) -> (text: String)
    ensures
        text@ == decimal(value(*n)),
{
    n.to_string()
}

/// `RandBigInt::gen_biguint_below` on `rand::thread_rng()`: a random number
/// below `bound`. Nothing is said of which. The outside function panics on a
/// zero bound.
#[verifier::external_body]
pub(crate) fn random_below(bound: &BigUint) -> (r: BigUint)
    requires
        value(*bound) != 0,
    ensures
        value(r) < value(*bound),
{
    rand::thread_rng().gen_biguint_below(bound)
}

} // verus!
