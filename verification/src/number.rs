//! Version numbers written as decimal text.

use vstd::prelude::*;
use vstd::string::StringSliceAdditionalSpecFns;

verus! {

/// Whether `b` is one of the ASCII digits `0` to `9`.
pub open spec fn is_digit(b: u8) -> bool {
    0x30 <= b <= 0x39
}

/// The number that a run of ASCII digits spells in base ten.
pub open spec fn decimal_value(digits: Seq<u8>) -> nat
    decreases digits.len(),
{
    if digits.len() == 0 {
        0
    } else {
        10 * decimal_value(digits.drop_last()) + (digits.last() - 0x30) as nat
    }
}

/// The `u16` that `text` spells: `text` is one or more ASCII digits and
/// nothing else, not even a sign, and the number fits.
pub open spec fn decimal_u16(text: Seq<u8>) -> Option<u16> {
    if text.len() > 0 && (forall|i: int| 0 <= i < text.len() ==> is_digit(#[trigger] text[i]))
        && decimal_value(text) <= u16::MAX {
        Some(decimal_value(text) as u16)
    } else {
        None
    }
}

/// `konst::primitive::parse_u16`: it accepts a text made of one or more ASCII
/// digits whose value fits into sixteen bits, and gives that value; any other
/// text is an error.
#[verifier::external_body]
fn parse_u16(text: &str) -> (r: Option<u16>)
    ensures
        r == decimal_u16(text.spec_bytes()),
{
    konst::primitive::parse_u16(text).ok()
}

/// The `u16` that `string` spells in decimal, if it spells one.
pub fn try_convert_str_to_u16(string: &str) -> (r: Option<u16>)
    ensures
        r == decimal_u16(string.spec_bytes()),
{
    parse_u16(string)
}

/// The `u16` that `string` spells in decimal.
pub fn convert_str_to_u16(string: &'static str) -> (r: u16)
    requires
        decimal_u16(string.spec_bytes()) is Some,
    ensures
        decimal_u16(string.spec_bytes()) == Some(r),
{
    match parse_u16(string) {
        Some(n) => n,
        None => {
            assert(false);
            0
        },
    }
}

} // verus!
