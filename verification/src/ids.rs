//! Universally unique identifiers.

use vstd::arithmetic::power::pow;
use vstd::prelude::*;

verus! {

/// A 128-bit identifier; the most significant bits come first in its text.
#[derive(Debug, Clone, Copy, PartialEq, Eq, Structural)]
pub struct Uuid {
    pub bits: u128,
}

/// Number of hyphens among the first `at` characters of a hyphenated identifier.
pub open spec fn hyphens_before(at: int) -> int {
    if at <= 8 {
        0
    } else if at <= 13 {
        1
    } else if at <= 18 {
        2
    } else if at <= 23 {
        3
    } else {
        4
    }
}

/// The `k`-th of the 32 hexadecimal digits of `bits`, the most significant first.
pub open spec fn hex_digit(bits: u128, k: int) -> char {
    let digits = seq![
        '0', '1', '2', '3', '4', '5', '6', '7', '8', '9', 'a', 'b', 'c', 'd', 'e', 'f',
    ];
    digits[bits as int / pow(16, (31 - k) as nat) % 16]
}

/// Lower-case hexadecimal digits in groups of 8, 4, 4, 4 and 12.
pub open spec fn hyphenated(bits: u128) -> Seq<char> {
    Seq::new(
        36,
        |at: int|
            if at == 8 || at == 13 || at == 18 || at == 23 {
                '-'
            } else {
                hex_digit(bits, at - hyphens_before(at))
            },
    )
}

/// `uuid::Uuid::from_u128` and the `Display` of `uuid::Uuid`: the identifier
/// with these bits, written hyphenated and in lower case.
#[verifier::external_body]
fn uuid_display(bits: u128) -> (r: String)
    ensures
        r@ == hyphenated(bits),
{
    uuid::Uuid::from_u128(bits).to_string()
}

impl Uuid {
    /// The identifier whose bits are all zero.
    pub fn nil() -> (r: Uuid)
        ensures
            r == (Uuid { bits: 0 }),
    {
        Uuid { bits: 0 }
    }

    pub fn from_u128(bits: u128) -> (r: Uuid)
        ensures
            r == (Uuid { bits }),
    {
        Uuid { bits }
    }

    /// The hyphenated text of the identifier.
    pub open spec fn text(self) -> Seq<char> {
        hyphenated(self.bits)
    }

    /// The hyphenated text of the identifier.
    pub fn to_text(&self) -> (r: String)
        ensures
            r@ == self.text(),
    {
        uuid_display(self.bits)
    }
}

} // verus!
