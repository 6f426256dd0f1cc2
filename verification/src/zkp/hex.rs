//! Numbers written in hexadecimal digits, with white space between them.

use vstd::prelude::*;
use vstd::string::StrSliceExecFns;

verus! {

/// `hex::FromHexError`, the error of `hex::decode`. Nothing of its inside is
/// known here.
#[verifier::external_type_specification]
#[verifier::external_body]
pub struct ExFromHexError(hex::FromHexError);

/// The value of a hexadecimal digit, upper or lower case.
pub open spec fn hex_digit(c: char) -> Option<nat> {
    if '0' <= c <= '9' {
        Some((c as nat - '0' as nat) as nat)
    } else if 'a' <= c <= 'f' {
        Some((c as nat - 'a' as nat + 10) as nat)
    } else if 'A' <= c <= 'F' {
        Some((c as nat - 'A' as nat + 10) as nat)
    } else {
        None
    }
}

/// Whether a text is an even number of hexadecimal digits.
pub open spec fn is_hex(text: Seq<char>) -> bool {
    text.len() % 2 == 0 && forall|i: int| 0 <= i < text.len() ==> hex_digit(#[trigger] text[i]) is Some
}

/// The bytes that a text of hexadecimal digits denotes, two digits a byte.
pub open spec fn hex_bytes(text: Seq<char>) -> Seq<u8> {
    Seq::new(
        text.len() / 2,
        |i: int| (16 * hex_digit(text[2 * i])->0 + hex_digit(text[2 * i + 1])->0) as u8,
    )
}

/// Whether a character has the Unicode property `White_Space`: the controls
/// from tab to carriage return, the space, the next-line control, the
/// non-breaking spaces, the spaces of fixed width, and the line and
/// paragraph separators.
pub open spec fn is_white_space(c: char) -> bool {
    ||| '\u{9}' <= c <= '\u{d}'
    ||| c == ' '
    ||| c == '\u{85}'
    ||| c == '\u{a0}'
    ||| c == '\u{1680}'
    ||| '\u{2000}' <= c <= '\u{200a}'
    ||| c == '\u{2028}'
    ||| c == '\u{2029}'
    ||| c == '\u{202f}'
    ||| c == '\u{205f}'
    ||| c == '\u{3000}'
}

/// A text without its white space.
pub open spec fn without_white_space(text: Seq<char>) -> Seq<char> {
    text.filter(|c: char| !is_white_space(c))
}

/// `hex::decode`: the bytes of a text of hexadecimal digits. It fails where
/// the text has an odd length or holds anything but hexadecimal digits.
#[verifier::external_body]
pub(crate) fn decode(text: &str) -> (res: Result<Vec<u8>, hex::FromHexError>)
    ensures
        res is Ok <==> is_hex(text@),
        res matches Ok(bytes) ==> bytes@ == hex_bytes(text@),
{
    hex::decode(text)
}

/// `char::is_whitespace`: whether the character has the Unicode property
/// `White_Space`.
#[verifier::external_body]
pub(crate) fn is_whitespace(c: char) -> (b: bool)
    ensures
        b == is_white_space(c),
{
    c.is_whitespace()
}

/// `String::push`: appends one character.
#[verifier::external_body]
pub(crate) fn push_char(text: &mut String, c: char)
    ensures
        final(text)@ == old(text)@.push(c),
{
    text.push(c)
}

/// Removes the white space from a text.
pub fn strip_white_space(text: &str) -> (stripped: String)
    ensures
        stripped@ == without_white_space(text@),
{
    let n = text.unicode_len();
    let mut stripped = String::new();
    proof {
        reveal_with_fuel(Seq::filter, 1);
        assert(text@.take(0).len() == 0);
    }
    let mut i: usize = 0;
    while i < n
        invariant
            i <= n,
            n == text@.len(),
            stripped@ == without_white_space(text@.take(i as int)),
        decreases n - i,
    {
        let c = text.get_char(i);
        proof {
            let front = text@.take(i as int);
            assert(text@.take(i + 1) =~= front.push(c));
            assert(front.push(c).drop_last() =~= front);
            reveal_with_fuel(Seq::filter, 2);
        }
        if !is_whitespace(c) {
            push_char(&mut stripped, c);
        }
        i = i + 1;
    }
    proof {
        assert(text@.take(n as int) =~= text@);
    }
    stripped
}

} // verus!
