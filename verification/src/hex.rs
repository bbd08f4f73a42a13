//! Hexadecimal id tokens.

use atoi::FromRadix16;
use vstd::prelude::*;

verus! {

/// Whether `byte` is an ASCII hexadecimal digit, of either case.
pub open spec fn is_hex_digit(byte: u8) -> bool {
    ||| 0x30 <= byte <= 0x39
    ||| 0x41 <= byte <= 0x46
    ||| 0x61 <= byte <= 0x66
}

/// The value of a hexadecimal digit.
pub open spec fn hex_digit_value(byte: u8) -> nat
    recommends
        is_hex_digit(byte),
{
    if byte <= 0x39 {
        (byte - 0x30) as nat
    } else if byte <= 0x46 {
        (byte - 0x41 + 10) as nat
    } else {
        (byte - 0x61 + 10) as nat
    }
}

/// The number of hexadecimal digits that `text` starts with.
pub open spec fn hex_prefix_len(text: Seq<u8>) -> nat
    decreases text.len(),
{
    if text.len() > 0 && is_hex_digit(text[0]) {
        1 + hex_prefix_len(text.drop_first())
    } else {
        0
    }
}

/// The number that a sequence of hexadecimal digits denotes, most significant digit first.
pub open spec fn hex_value(digits: Seq<u8>) -> nat
    decreases digits.len(),
{
    if digits.len() == 0 {
        0
    } else {
        16 * hex_value(digits.drop_last()) + hex_digit_value(digits.last())
    }
}

/// Whether `token` is exactly `width` hexadecimal digits.
pub open spec fn is_hex_token(token: Seq<u8>, width: nat) -> bool {
    &&& token.len() == width
    &&& forall|i: int| 0 <= i < token.len() ==> is_hex_digit(#[trigger] token[i])
}

/// What [`parse_id`] returns.
pub open spec fn id_of_token(token: Seq<u8>, width: nat) -> Option<u16> {
    if 1 <= width <= 4 && is_hex_token(token, width) {
        Some(hex_value(token) as u16)
    } else {
        None
    }
}

/// The digits of `text` are all hexadecimal exactly when its hexadecimal prefix is all of it.
pub proof fn lemma_hex_prefix_full(text: Seq<u8>)
    ensures
        hex_prefix_len(text) <= text.len(),
        hex_prefix_len(text) == text.len() <==> is_hex_token(text, text.len()),
    decreases text.len(),
{
    if text.len() > 0 && is_hex_digit(text[0]) {
        let rest = text.drop_first();
        lemma_hex_prefix_full(rest);
        if is_hex_token(rest, rest.len()) {
            assert forall|i: int| 0 <= i < text.len() implies is_hex_digit(#[trigger] text[i]) by {
                if i > 0 {
                    assert(text[i] == rest[i - 1]);
                }
            }
        }
        if is_hex_token(text, text.len()) {
            assert forall|i: int| 0 <= i < rest.len() implies is_hex_digit(#[trigger] rest[i]) by {
                assert(rest[i] == text[i + 1]);
            }
        }
    }
}

/// The number of values that `width` hexadecimal digits can denote: sixteen to the power of
/// `width`.
pub open spec fn hex_limit(width: nat) -> nat
    decreases width,
{
    if width == 0 {
        1
    } else {
        16 * hex_limit((width - 1) as nat)
    }
}

/// A token of hexadecimal digits denotes a number below the limit of its width.
pub proof fn lemma_hex_value_bound(digits: Seq<u8>)
    requires
        is_hex_token(digits, digits.len()),
    ensures
        hex_value(digits) < hex_limit(digits.len()),
    decreases digits.len(),
{
    if digits.len() > 0 {
        let front = digits.drop_last();
        assert forall|i: int| 0 <= i < front.len() implies is_hex_digit(#[trigger] front[i]) by {
            assert(front[i] == digits[i]);
        }
        lemma_hex_value_bound(front);
        assert(is_hex_digit(digits[digits.len() - 1]));
    }
}

/// Calls `atoi::FromRadix16::from_radix_16` for `u16`. That function reads the hexadecimal
/// digits that `text` starts with and returns the number they denote and how many they are.
/// With more than four digits the number would not fit, so longer texts are left out.
#[verifier::external_body]
fn radix_16_prefix(text: &[u8]) -> (parsed: (u16, usize))
    requires
        text@.len() <= 4,
    ensures
        parsed.1 == hex_prefix_len(text@),
        parsed.0 == hex_value(text@.take(parsed.1 as int)),
{
    u16::from_radix_16(text)
}

/// Parses an id field of exactly `width` hexadecimal digits, for a width from 1 to 4.
/// Anything else (another length, a character that is no hexadecimal digit) gives `None`.
pub fn parse_id(token: &[u8], width: usize) -> (id: Option<u16>)
    ensures
        id == id_of_token(token@, width as nat),
{
    if width == 0 || width > 4 || token.len() != width {
        return None;
    }
    let (value, used) = radix_16_prefix(token);
    proof {
        lemma_hex_prefix_full(token@);
        assert(token@.take(token@.len() as int) =~= token@);
    }
    if used == width {
        Some(value)
    } else {
        None
    }
}

} // verus!
