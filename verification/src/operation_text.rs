//! Text form of operation identities.
use vstd::prelude::*;

use crate::migrations::records::IndexOperationId;

verus! {

/// The character of one lower-case hexadecimal digit.
pub open spec fn hex_digit(value: nat) -> char
    recommends
        value < 16,
{
    if value < 10 {
        (48 + value) as char
    } else {
        (87 + value) as char
    }
}

/// The lowest `width` hexadecimal digits of a number.
pub open spec fn hex_digits(value: nat, width: nat) -> Seq<char>
    decreases width,
{
    if width == 0 {
        Seq::empty()
    } else {
        hex_digits(value / 16, (width - 1) as nat).push(hex_digit(value % 16))
    }
}

/// The hyphenated form of a 128-bit identity: groups of 8, 4, 4, 4 and 12 digits.
pub open spec fn hyphenated(id: u128) -> Seq<char> {
    let id = id as nat;
    hex_digits(id / 0x1_0000_0000_0000_0000_0000_0000, 8) + seq!['-'] + hex_digits(
        id / 0x1_0000_0000_0000_0000_0000,
        4,
    ) + seq!['-'] + hex_digits(id / 0x1_0000_0000_0000_0000, 4) + seq!['-'] + hex_digits(
        id / 0x1_0000_0000_0000,
        4,
    ) + seq!['-'] + hex_digits(id, 12)
}

/// Calls `uuid::Uuid::from_u128` and the `Display` form of its result, which is the
/// lower-case hyphenated form of the number.
#[verifier::external_body]
fn uuid_display(id: u128) -> (text: String)
    ensures
        text@ == hyphenated(id),
{
    uuid::Uuid::from_u128(id).to_string()
}

impl IndexOperationId {
    /// The identity as callers see it.
    pub fn text(self) -> (text: String)
        ensures
            text@ == hyphenated(self.0),
    {
        uuid_display(self.0)
    }
}

proof fn lemma_digit_count(value: nat, width: nat)
    ensures
        hex_digits(value, width).len() == width,
    decreases width,
{
    if width > 0 {
        lemma_digit_count(value / 16, (width - 1) as nat);
    }
}

/// An identity has 36 characters: 32 digits in five groups with a hyphen between them.
pub proof fn law_identities_are_hyphenated(id: u128)
    ensures
        hyphenated(id).len() == 36,
        hyphenated(id)[8] == '-' && hyphenated(id)[13] == '-' && hyphenated(id)[18] == '-'
            && hyphenated(id)[23] == '-',
{
    let number = id as nat;
    lemma_digit_count(number / 0x1_0000_0000_0000_0000_0000_0000, 8);
    lemma_digit_count(number / 0x1_0000_0000_0000_0000_0000, 4);
    lemma_digit_count(number / 0x1_0000_0000_0000_0000, 4);
    lemma_digit_count(number / 0x1_0000_0000_0000, 4);
    lemma_digit_count(number, 12);
}

} // verus!
