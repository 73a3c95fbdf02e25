//! Hexadecimal text, as the stored password hashes use it.

use rustc_serialize::hex::{FromHex, ToHex};
use vstd::prelude::*;

verus! {

/// The sixteen digits that encoding writes.
pub open spec fn hex_alphabet() -> Seq<char> {
    seq!['0', '1', '2', '3', '4', '5', '6', '7', '8', '9', 'a', 'b', 'c', 'd', 'e', 'f']
}

/// The text of `bytes`: two lower-case digits per byte, the high nibble first.
pub open spec fn hex_encode(bytes: Seq<u8>) -> Seq<char> {
    Seq::new(
        2 * bytes.len(),
        |i: int|
            if i % 2 == 0 {
                hex_alphabet()[bytes[i / 2] as int / 16]
            } else {
                hex_alphabet()[bytes[i / 2] as int % 16]
            },
    )
}

/// What a digit is worth; digits of either case count.
pub open spec fn hex_value(c: char) -> Option<int> {
    let code = c as u32 as int;
    if '0' as u32 <= code <= '9' as u32 {
        Some(code - '0' as u32)
    } else if 'a' as u32 <= code <= 'f' as u32 {
        Some(code - 'a' as u32 + 10)
    } else if 'A' as u32 <= code <= 'F' as u32 {
        Some(code - 'A' as u32 + 10)
    } else {
        None
    }
}

/// The white space that decoding passes over.
pub open spec fn is_hex_space(c: char) -> bool {
    c == ' ' || c == '\r' || c == '\n' || c == '\t'
}

/// `text` without its white space.
pub open spec fn hex_digits(text: Seq<char>) -> Seq<char> {
    text.filter(|c: char| !is_hex_space(c))
}

/// The bytes that `text` stands for: its digits taken in pairs. There are
/// none where a character is neither digit nor white space, or where the
/// number of digits is odd.
pub open spec fn hex_decode(text: Seq<char>) -> Option<Seq<u8>> {
    let digits = hex_digits(text);
    if digits.len() % 2 == 0 && (forall|i: int| 0 <= i < digits.len() ==> hex_value(#[trigger] digits[i]) is Some) {
        Some(
            Seq::new(
                digits.len() / 2,
                |i: int| (16 * hex_value(digits[2 * i])->0 + hex_value(digits[2 * i + 1])->0) as u8,
            ),
        )
    } else {
        None
    }
}

/// Calls `rustc_serialize::hex::ToHex::to_hex` on the bytes. Taken on trust:
/// that it writes for each byte the digit of its high nibble and then that
/// of its low nibble, out of `0123456789abcdef`.
#[verifier::external_body]
pub(crate) fn to_hex(bytes: &[u8]) -> (text: String)
    ensures
        text@ == hex_encode(bytes@),
{
    bytes.to_hex()
}

/// Calls `rustc_serialize::hex::FromHex::from_hex` on the text and keeps no
/// detail of its error. Taken on trust: that it passes over blanks, carriage
/// returns, line feeds and tabs, reads every other character as a digit of
/// either case, two digits to a byte, and fails on any other character and
/// on an odd number of digits.
#[verifier::external_body]
pub(crate) fn from_hex(text: &str) -> (r: Option<Vec<u8>>)
    ensures
        match r {
            Some(bytes) => hex_decode(text@) == Some(bytes@),
            None => hex_decode(text@) is None,
        },
{
    text.from_hex().ok()
}

/// Every digit that encoding writes is worth the nibble it was written for.
pub proof fn lemma_hex_digit_value(nibble: int)
    requires
        0 <= nibble < 16,
    ensures
        hex_value(hex_alphabet()[nibble]) == Some(nibble),
        !is_hex_space(hex_alphabet()[nibble]),
{
}

/// A text in which nothing is white space is its own digits.
pub proof fn lemma_hex_digits_of_dense(text: Seq<char>)
    requires
        forall|i: int| 0 <= i < text.len() ==> !is_hex_space(#[trigger] text[i]),
    ensures
        hex_digits(text) == text,
    decreases text.len(),
{
    reveal(Seq::filter);
    if text.len() > 0 {
        lemma_hex_digits_of_dense(text.drop_last());
        assert(text.drop_last().push(text.last()) =~= text);
    }
}

/// Decoding undoes encoding.
pub proof fn lemma_hex_round_trip(bytes: Seq<u8>)
    ensures
        hex_decode(hex_encode(bytes)) == Some(bytes),
{
    let text = hex_encode(bytes);
    assert forall|i: int| 0 <= i < text.len() implies !is_hex_space(#[trigger] text[i]) && hex_value(
        text[i],
    ) is Some by {
        lemma_hex_digit_value(bytes[i / 2] as int / 16);
        lemma_hex_digit_value(bytes[i / 2] as int % 16);
    }
    lemma_hex_digits_of_dense(text);
    let decoded = hex_decode(text)->0;
    assert(decoded.len() == bytes.len());
    assert forall|i: int| 0 <= i < bytes.len() implies decoded[i] == bytes[i] by {
        lemma_hex_digit_value(bytes[i] as int / 16);
        lemma_hex_digit_value(bytes[i] as int % 16);
        assert((2 * i) / 2 == i && (2 * i) % 2 == 0);
        assert((2 * i + 1) / 2 == i && (2 * i + 1) % 2 == 1);
    }
    assert(decoded =~= bytes);
}

} // verus!
