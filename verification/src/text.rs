//! Decimal numbers and joined text in diagnostics.
use vstd::prelude::*;

verus! {

/// The character of one decimal digit.
pub open spec fn digit(value: nat) -> char
    recommends
        value < 10,
{
    (48 + value) as char
}

/// The shortest decimal form of a number.
pub open spec fn decimal(value: nat) -> Seq<char>
    decreases value,
{
    if value < 10 {
        seq![digit(value)]
    } else {
        decimal(value / 10).push(digit(value % 10))
    }
}

/// The text of a truth value.
pub open spec fn truth(value: bool) -> Seq<char> {
    if value {
        "true"@
    } else {
        "false"@
    }
}

fn digit_text(value: u64) -> (text: &'static str)
    requires
        value < 10,
    ensures
        text@ == seq![digit(value as nat)],
{
    proof {
        reveal_strlit("0");
        reveal_strlit("1");
        reveal_strlit("2");
        reveal_strlit("3");
        reveal_strlit("4");
        reveal_strlit("5");
        reveal_strlit("6");
        reveal_strlit("7");
        reveal_strlit("8");
        reveal_strlit("9");
    }
    if value == 0 {
        "0"
    } else if value == 1 {
        "1"
    } else if value == 2 {
        "2"
    } else if value == 3 {
        "3"
    } else if value == 4 {
        "4"
    } else if value == 5 {
        "5"
    } else if value == 6 {
        "6"
    } else if value == 7 {
        "7"
    } else if value == 8 {
        "8"
    } else {
        "9"
    }
}

/// Writes a number in decimal.
pub fn decimal_text(value: u64) -> (text: String)
    ensures
        text@ == decimal(value as nat),
    decreases value,
{
    if value < 10 {
        digit_text(value).to_owned()
    } else {
        let mut text = decimal_text(value / 10);
        text.append(digit_text(value % 10));
        text
    }
}

/// Writes a truth value.
pub fn truth_text(value: bool) -> (text: &'static str)
    ensures
        text@ == truth(value),
{
    if value {
        "true"
    } else {
        "false"
    }
}

/// Joins two pieces of text.
pub fn joined(first: &str, second: &str) -> (text: String)
    ensures
        text@ == first@ + second@,
{
    let mut text = first.to_owned();
    text.append(second);
    text
}

/// Joins three pieces of text.
pub fn joined3(first: &str, second: &str, third: &str) -> (text: String)
    ensures
        text@ == first@ + second@ + third@,
{
    let mut text = first.to_owned();
    text.append(second);
    text.append(third);
    text
}

/// The digits are the ten characters from zero to nine.
pub proof fn law_digits_are_the_ten_characters()
    ensures
        digit(0) == '0' && digit(1) == '1' && digit(2) == '2' && digit(3) == '3' && digit(4) == '4'
            && digit(5) == '5' && digit(6) == '6' && digit(7) == '7' && digit(8) == '8' && digit(9)
            == '9',
{
}

/// A number is written with its last digit last and the digits of its tenth before it, and
/// without leading zeros.
pub proof fn law_numbers_are_written_in_decimal(value: nat)
    ensures
        value < 10 ==> decimal(value) == seq![digit(value)],
        value >= 10 ==> decimal(value) == decimal(value / 10).push(digit(value % 10)),
        decimal(value).len() > 0,
        value > 0 ==> decimal(value)[0] != '0',
    decreases value,
{
    if value >= 10 {
        law_numbers_are_written_in_decimal(value / 10);
    }
}

/// Different numbers are written differently.
pub proof fn law_numbers_are_told_apart(left: nat, right: nat)
    ensures
        decimal(left) == decimal(right) ==> left == right,
    decreases left,
{
    law_numbers_are_written_in_decimal(left);
    law_numbers_are_written_in_decimal(right);
    if decimal(left) == decimal(right) {
        assert(decimal(left).last() == digit(left % 10));
        assert(decimal(right).last() == digit(right % 10));
        if left >= 10 && right >= 10 {
            assert(decimal(left).drop_last() =~= decimal(left / 10));
            assert(decimal(right).drop_last() =~= decimal(right / 10));
            law_numbers_are_told_apart(left / 10, right / 10);
        } else if left >= 10 {
            law_numbers_are_written_in_decimal(left / 10);
            assert(decimal(left).len() > 1 && decimal(right).len() == 1);
        } else if right >= 10 {
            law_numbers_are_written_in_decimal(right / 10);
            assert(decimal(right).len() > 1 && decimal(left).len() == 1);
        }
    }
}

/// Truth values are written as words.
pub proof fn law_truth_values_are_words()
    ensures
        truth(true) == "true"@,
        truth(false) == "false"@,
{
}

} // verus!
