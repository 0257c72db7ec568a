//! Device and session identifiers: 128-bit values written as hyphenated,
//! lower-case hexadecimal text.
use vstd::prelude::*;

verus! {

/// The lower-case hexadecimal digits, by value.
pub open spec fn hex_digits() -> Seq<char> {
    seq!['0', '1', '2', '3', '4', '5', '6', '7', '8', '9', 'a', 'b', 'c', 'd', 'e', 'f']
}

/// The `k`-th of the 32 hexadecimal digits of `v`, most significant first.
pub open spec fn id_nibble(v: u128, k: int) -> int {
    (v as int / vstd::arithmetic::power::pow(16, (31 - k) as nat)) % 16
}

/// Position among the 32 digits of the character at position `i` of the
/// hyphenated text (hyphens stand at 8, 13, 18 and 23).
pub open spec fn digit_position(i: int) -> int {
    if i < 8 {
        i
    } else if i < 13 {
        i - 1
    } else if i < 18 {
        i - 2
    } else if i < 23 {
        i - 3
    } else {
        i - 4
    }
}

/// The hyphenated lower-case text of an identifier, 8-4-4-4-12 digits.
pub open spec fn id_text(v: u128) -> Seq<char> {
    Seq::new(
        36,
        |i: int|
            if i == 8 || i == 13 || i == 18 || i == 23 {
                '-'
            } else {
                hex_digits()[id_nibble(v, digit_position(i))]
            },
    )
}

/// Relies on `uuid::Uuid::from_u128` and the `Display` impl of `uuid::Uuid`:
/// the value's 32 hexadecimal digits, big-endian, lower case, hyphenated.
#[verifier::external_body]
pub(crate) fn format_id(v: u128) -> (r: String)
    ensures
        r@ == id_text(v),
{
    uuid::Uuid::from_u128(v).to_string()
}

/// Relies on `uuid::Uuid::new_v4` and `uuid::Uuid::as_u128`: a random version-4
/// identifier. Nothing is promised of its value.
#[verifier::external_body]
pub(crate) fn random_id() -> (r: u128) {
    uuid::Uuid::new_v4().as_u128()
}

/// The text form of an identifier.
pub fn id_to_string(v: u128) -> (r: String)
    ensures
        r@ == id_text(v),
{
    format_id(v)
}

} // verus!
