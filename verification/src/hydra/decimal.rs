//! Numbers in decimal text.

use vstd::prelude::*;
use vstd::string::StringExecFns;

verus! {

/// The character of a decimal digit.
pub open spec fn digit_char(digit: nat) -> char {
    if digit == 0 {
        '0'
    } else if digit == 1 {
        '1'
    } else if digit == 2 {
        '2'
    } else if digit == 3 {
        '3'
    } else if digit == 4 {
        '4'
    } else if digit == 5 {
        '5'
    } else if digit == 6 {
        '6'
    } else if digit == 7 {
        '7'
    } else if digit == 8 {
        '8'
    } else {
        '9'
    }
}

/// A number in decimal, without leading zeros.
pub open spec fn decimal(n: nat) -> Seq<char>
    decreases n,
{
    if n < 10 {
        seq![digit_char(n)]
    } else {
        decimal(n / 10).push(digit_char(n % 10))
    }
}

/// An ASCII decimal digit.
pub open spec fn is_digit(c: char) -> bool {
    '0' <= c && c <= '9'
}

/// The number that a digit stands for.
pub open spec fn digit_value(c: char) -> nat {
    (c as nat - '0' as nat) as nat
}

/// Every character is a decimal digit.
pub open spec fn all_digits(digits: Seq<char>) -> bool {
    forall|i: int| 0 <= i < digits.len() ==> is_digit(#[trigger] digits[i])
}

/// The number that a run of digits stands for; leading zeros count for
/// nothing.
pub open spec fn digits_value(digits: Seq<char>) -> nat
    decreases digits.len(),
{
    if digits.len() == 0 {
        0
    } else {
        digits_value(digits.drop_last()) * 10 + digit_value(digits.last())
    }
}

/// The text without its sign: one `+` may stand in front.
pub open spec fn unsigned_part(text: Seq<char>) -> Seq<char> {
    if text.len() > 0 && text[0] == '+' {
        text.subrange(1, text.len() as int)
    } else {
        text
    }
}

/// The number of 16 bits that a text stands for: an optional `+`, then one or
/// more decimal digits and nothing else, with a value of at most 65535.
pub open spec fn parsed_u16(text: Seq<char>) -> Option<u16> {
    let digits = unsigned_part(text);
    if digits.len() > 0 && all_digits(digits) && digits_value(digits) <= u16::MAX {
        Some(digits_value(digits) as u16)
    } else {
        None
    }
}

/// The text of one decimal digit.
fn digit_text(digit: u8) -> (text: &'static str)
    requires
        digit < 10,
    ensures
        text@ == seq![digit_char(digit as nat)],
{
    proof {
        reveal_strlit("0");
        reveal_strlit("1");
        reveal_strlit("2");
        reveal_strlit("3");
        reveal_strlit("4");
        reveal_strlit("5");
        reveal_strlit("6");
        reveal_strlit("7");
        reveal_strlit("8");
        reveal_strlit("9");
    }
    let text = if digit == 0 {
        "0"
    } else if digit == 1 {
        "1"
    } else if digit == 2 {
        "2"
    } else if digit == 3 {
        "3"
    } else if digit == 4 {
        "4"
    } else if digit == 5 {
        "5"
    } else if digit == 6 {
        "6"
    } else if digit == 7 {
        "7"
    } else if digit == 8 {
        "8"
    } else {
        "9"
    };
    assert(text@ =~= seq![digit_char(digit as nat)]);
    text
}

/// Writes a number in decimal.
pub fn decimal_text(n: u8) -> (text: String)
    ensures
        text@ == decimal(n as nat),
{
    reveal_with_fuel(decimal, 3);
    if n < 10 {
        digit_text(n).to_owned()
    } else if n < 100 {
        let mut text = digit_text(n / 10).to_owned();
        text.append(digit_text(n % 10));
        assert(text@ =~= decimal(n as nat));
        text
    } else {
        let mut text = digit_text(n / 100).to_owned();
        text.append(digit_text((n / 10) % 10));
        text.append(digit_text(n % 10));
        assert((n as nat / 10) / 10 == n as nat / 100);
        assert(text@ =~= decimal(n as nat));
        text
    }
}

/// A run of digits stands for no less than any of its beginnings.
pub proof fn lemma_digits_value_grows(digits: Seq<char>, count: int)
    requires
        0 <= count <= digits.len(),
    ensures
        digits_value(digits.take(count)) <= digits_value(digits),
    decreases digits.len() - count,
{
    if count == digits.len() {
        assert(digits.take(count) =~= digits);
    } else {
        lemma_digits_value_grows(digits.drop_last(), count);
        assert(digits.drop_last().take(count) =~= digits.take(count));
    }
}

/// Reads a number of 16 bits: an optional `+`, then decimal digits.
pub fn parse_u16(text: &str) -> (r: Option<u16>)
    ensures
        r == parsed_u16(text@),
{
    let mut value: u32 = 0;
    let mut signed = false;
    let mut seen = false;
    let mut first = true;
    for c in it: text.chars()
        invariant
            it.seq() == text@,
            first == (it.index() == 0),
            signed == (it.index() > 0 && text@[0] == '+'),
            seen == (it.index() > (if signed { 1int } else { 0int })),
            it.index() > 0 ==> unsigned_part(text@) == text@.subrange(
                if signed { 1int } else { 0int },
                text@.len() as int,
            ),
            it.index() > 0 ==> all_digits(
                text@.subrange(if signed { 1int } else { 0int }, it.index() as int),
            ) && value == digits_value(
                text@.subrange(if signed { 1int } else { 0int }, it.index() as int),
            ),
            it.index() == 0 ==> value == 0,
            value <= u16::MAX,
    {
        let ghost at = it.index() as int;
        let ghost start = if signed { 1int } else { 0int };
        if first && c == '+' {
            signed = true;
            proof {
                assert(text@.subrange(1, 1) =~= Seq::<char>::empty());
            }
        } else if '0' <= c && c <= '9' {
            let digit = (c as u32) - ('0' as u32);
            value = value * 10 + digit;
            proof {
                let before = text@.subrange(start, at);
                let now = text@.subrange(start, at + 1);
                assert(now.drop_last() =~= before);
                assert(now.last() == c);
                if at == 0 {
                    assert(before =~= Seq::<char>::empty());
                }
                assert(value == digits_value(now));
                assert forall|i: int| 0 <= i < now.len() implies is_digit(#[trigger] now[i]) by {
                    if i < before.len() {
                        assert(now[i] == before[i]);
                    }
                }
            }
            if value > 65535 {
                proof {
                    let digits = unsigned_part(text@);
                    let now = text@.subrange(start, at + 1);
                    assert(digits =~= text@.subrange(start, text@.len() as int));
                    assert(digits.take(at + 1 - start) =~= now);
                    lemma_digits_value_grows(digits, at + 1 - start);
                }
                return None;
            }
            seen = true;
        } else {
            proof {
                let digits = unsigned_part(text@);
                assert(digits =~= text@.subrange(start, text@.len() as int));
                assert(digits[at - start] == c);
            }
            return None;
        }
        first = false;
    }
    proof {
        let digits = unsigned_part(text@);
        if text@.len() > 0 {
            assert(digits =~= text@.subrange(if signed { 1int } else { 0int }, text@.len() as int));
        }
    }
    if seen {
        Some(value as u16)
    } else {
        None
    }
}

} // verus!
