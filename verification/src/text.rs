//! Small text operations: comparing, joining and writing numbers.

use vstd::prelude::*;

verus! {

/// Whether two texts hold the same characters.
pub(crate) fn same_text(a: &str, b: &str) -> (same: bool)
    ensures
        same == (a@ == b@),
{
    a.to_owned() == b.to_owned()
}

/// The character for one decimal digit.
pub open spec fn digit_char(digit: nat) -> char {
    ('0' as nat + digit) as char
}

/// A number written in decimal, without leading zeros.
pub open spec fn decimal_text(number: nat) -> Seq<char>
    decreases number,
{
    if number < 10 {
        seq![digit_char(number)]
    } else {
        decimal_text(number / 10).push(digit_char(number % 10))
    }
}

fn digit_text(digit: u8) -> (text: &'static str)
    requires
        digit < 10,
    ensures
        text@ == seq![digit_char(digit as nat)],
{
    proof {
        reveal_strlit("0");
        reveal_strlit("1");
        reveal_strlit("2");
        reveal_strlit("3");
        reveal_strlit("4");
        reveal_strlit("5");
        reveal_strlit("6");
        reveal_strlit("7");
        reveal_strlit("8");
        reveal_strlit("9");
    }
    match digit {
        0 => "0",
        1 => "1",
        2 => "2",
        3 => "3",
        4 => "4",
        5 => "5",
        6 => "6",
        7 => "7",
        8 => "8",
        _ => "9",
    }
}

/// Writes a number in decimal.
pub fn decimal(number: u128) -> (text: String)
    ensures
        text@ == decimal_text(number as nat),
    decreases number,
{
    let last: u8 = (number % 10) as u8;
    if number < 10 {
        digit_text(last).to_owned()
    } else {
        let mut text = decimal(number / 10);
        text.append(digit_text(last));
        assert(text@ == decimal_text((number / 10) as nat).push(digit_char(last as nat)));
        text
    }
}

/// A number is written with its digits in order: the last character is the
/// digit that a division by ten leaves over, and what comes before it is the
/// quotient, written the same way. A number under ten is its one digit.
pub proof fn law_decimal_writes_digits_in_order(number: nat)
    ensures
        number < 10 ==> decimal_text(number).len() == 1,
        number >= 10 ==> decimal_text(number).len() == decimal_text(number / 10).len() + 1,
        number >= 10 ==> decimal_text(number).take(decimal_text(number).len() - 1) == decimal_text(
            number / 10,
        ),
        decimal_text(number)[decimal_text(number).len() - 1] as nat == 48 + number % 10,
{
    if number >= 10 {
        assert(decimal_text(number).take(decimal_text(number).len() - 1) =~= decimal_text(
            number / 10,
        ));
    }
}

/// A number is written with digits alone, and does not begin with a zero unless
/// it is zero.
pub proof fn law_decimal_has_no_leading_zero(number: nat)
    ensures
        decimal_text(number).len() >= 1,
        forall|i: int|
            0 <= i < decimal_text(number).len() ==> '0' <= (#[trigger] decimal_text(number)[i])
                <= '9',
        number > 0 ==> decimal_text(number)[0] != '0',
    decreases number,
{
    if number >= 10 {
        law_decimal_has_no_leading_zero(number / 10);
        let before = decimal_text(number / 10);
        let text = decimal_text(number);
        assert forall|i: int| 0 <= i < text.len() implies '0' <= (#[trigger] text[i]) <= '9' by {
            if i < before.len() {
                assert(text[i] == before[i]);
            }
        }
    }
}

} // verus!
