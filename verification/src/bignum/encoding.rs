//! Big-endian byte strings as natural numbers.

use vstd::prelude::*;

verus! {

/// The natural number that a big-endian byte string denotes. Leading zero
/// bytes do not change it, and the empty string denotes zero.
pub open spec fn be_value(bytes: Seq<u8>) -> nat
    decreases bytes.len(),
{
    if bytes.len() == 0 {
        0
    } else {
        be_value(bytes.drop_last()) * 256 + bytes.last() as nat
    }
}

/// Whether a byte string is the shortest that denotes its number: no leading
/// zero byte, except that zero itself is the single byte `0`.
pub open spec fn is_minimal(bytes: Seq<u8>) -> bool {
    bytes.len() >= 1 && (bytes.len() > 1 ==> bytes[0] != 0)
}

/// The shortest big-endian byte string that denotes `n`.
pub open spec fn minimal_bytes(n: nat) -> Seq<u8>
    decreases n,
{
    if n < 256 {
        seq![n as u8]
    } else {
        minimal_bytes(n / 256).push((n % 256) as u8)
    }
}

/// A byte string that starts with a non-zero byte denotes a positive number.
pub proof fn lemma_leading_byte_counts(bytes: Seq<u8>)
    requires
        bytes.len() >= 1,
        bytes[0] != 0,
    ensures
        be_value(bytes) >= 1,
    decreases bytes.len(),
{
    if bytes.len() > 1 {
        lemma_leading_byte_counts(bytes.drop_last());
    } else {
        assert(bytes.drop_last().len() == 0);
    }
}

/// The shortest byte string of a number is unique: a minimal byte string is
/// the one that [`minimal_bytes`] gives for its value.
pub proof fn lemma_minimal_is_unique(bytes: Seq<u8>)
    requires
        is_minimal(bytes),
    ensures
        bytes == minimal_bytes(be_value(bytes)),
    decreases bytes.len(),
{
    let front = bytes.drop_last();
    let last = bytes.last();
    if bytes.len() == 1 {
        assert(front.len() == 0);
        assert(bytes =~= seq![last]);
    } else {
        lemma_leading_byte_counts(front);
        lemma_minimal_is_unique(front);
        let n = be_value(bytes);
        assert(n / 256 == be_value(front) && n % 256 == last as nat) by (nonlinear_arith)
            requires
                n == be_value(front) * 256 + last as nat,
                last < 256,
        ;
        assert(bytes =~= front.push(last));
    }
}

/// What [`minimal_bytes`] gives is minimal and denotes the number.
pub proof fn lemma_minimal_bytes(n: nat)
    ensures
        is_minimal(minimal_bytes(n)),
        be_value(minimal_bytes(n)) == n,
    decreases n,
{
    if n < 256 {
        let one = seq![n as u8];
        assert(be_value(one.drop_last()) == 0);
        assert(one.last() == n as u8);
    } else {
        let front = minimal_bytes(n / 256);
        lemma_minimal_bytes(n / 256);
        let all = front.push((n % 256) as u8);
        assert(all.drop_last() =~= front);
        assert(all[0] == front[0]);
        if front.len() == 1 {
            assert(be_value(front.drop_last()) == 0);
            assert(front.last() == front[0]);
        }
    }
}

/// The character of a decimal digit.
pub open spec fn digit_char(d: nat) -> char {
    if d == 0 {
        '0'
    } else if d == 1 {
        '1'
    } else if d == 2 {
        '2'
    } else if d == 3 {
        '3'
    } else if d == 4 {
        '4'
    } else if d == 5 {
        '5'
    } else if d == 6 {
        '6'
    } else if d == 7 {
        '7'
    } else if d == 8 {
        '8'
    } else {
        '9'
    }
}

/// A number written in decimal digits, without leading zeros.
pub open spec fn decimal(n: nat) -> Seq<char>
    decreases n,
{
    if n < 10 {
        seq![digit_char(n)]
    } else {
        decimal(n / 10).push(digit_char(n % 10))
    }
}

} // verus!
