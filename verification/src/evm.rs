//! The text form of an EVM address: forty hexadecimal digits, with or
//! without a `0x` in front.

use std::str::FromStr;
use vstd::prelude::*;

verus! {

/// The value of a hexadecimal digit, in either case; `None` for any other
/// character.
pub open spec fn hex_digit_value(c: char) -> Option<u8> {
    if '0' <= c && c <= '9' {
        Some((c as int - '0' as int) as u8)
    } else if 'a' <= c && c <= 'f' {
        Some((c as int - 'a' as int + 10) as u8)
    } else if 'A' <= c && c <= 'F' {
        Some((c as int - 'A' as int + 10) as u8)
    } else {
        None
    }
}

/// The text without a leading `0x` or `0X`, if it has one.
pub open spec fn strip_hex_prefix(text: Seq<char>) -> Seq<char> {
    if text.len() >= 2 && text[0] == '0' && (text[1] == 'x' || text[1] == 'X') {
        text.skip(2)
    } else {
        text
    }
}

/// The twenty bytes that a text denotes as an EVM address: after an
/// optional prefix, exactly forty hexadecimal digits, two to a byte, the
/// high digit first. Any other text denotes no address.
pub open spec fn evm_address_of(text: Seq<char>) -> Option<Seq<u8>> {
    let digits = strip_hex_prefix(text);
    if digits.len() == 40 && forall|i: int|
        0 <= i < 40 ==> hex_digit_value(#[trigger] digits[i]) is Some {
        Some(
            Seq::new(
                20,
                |i: int|
                    (16 * hex_digit_value(digits[2 * i]).unwrap() + hex_digit_value(
                        digits[2 * i + 1],
                    ).unwrap()) as u8,
            ),
        )
    } else {
        None
    }
}

/// Parses an EVM address with `alloy::primitives::Address::from_str`.
///
/// Not proved: that alloy's parser agrees with [`evm_address_of`]. The
/// parser hands the text to `const_hex::decode_to_array`, which strips a
/// leading `0x` or `0X`, wants exactly forty characters after it, each a
/// hexadecimal digit of either case, and puts two digits in a byte, the
/// high one first. It checks no checksum. It returns an error for any
/// other text, and never panics.
#[verifier::external_body]
pub(crate) fn evm_address_from_str(text: &str) -> (parsed: Option<[u8; 20]>)
    ensures
        match parsed {
            Some(bytes) => evm_address_of(text@) == Some(bytes@),
            None => evm_address_of(text@) is None,
        },
{
    match alloy::primitives::Address::from_str(text) {
        Ok(address) => Some(address.into_array()),
        Err(_) => None,
    }
}

} // verus!
