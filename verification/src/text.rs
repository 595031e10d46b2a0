//! Numbers as decimal text, written and read.

use vstd::prelude::*;
use vstd::string::StrSliceExecFns;

verus! {

/// The character that writes the digit `d`.
pub open spec fn digit_char(d: nat) -> char {
    if d == 0 {
        '0'
    } else if d == 1 {
        '1'
    } else if d == 2 {
        '2'
    } else if d == 3 {
        '3'
    } else if d == 4 {
        '4'
    } else if d == 5 {
        '5'
    } else if d == 6 {
        '6'
    } else if d == 7 {
        '7'
    } else if d == 8 {
        '8'
    } else {
        '9'
    }
}

/// The decimal numeral of `n`, without leading zeros.
pub open spec fn decimal(n: nat) -> Seq<char>
    decreases n,
{
    if n < 10 {
        seq![digit_char(n)]
    } else {
        decimal(n / 10).push(digit_char(n % 10))
    }
}

/// The numeral of `n` in at least two digits, as `{:02}` writes it.
pub open spec fn two_digits(n: nat) -> Seq<char> {
    if n < 10 {
        seq!['0', digit_char(n)]
    } else {
        decimal(n)
    }
}

/// The one-character string of a digit.
fn digit_str(d: u64) -> (s: &'static str)
    requires
        d < 10,
    ensures
        s@ == seq![digit_char(d as nat)],
{
    proof {
        reveal_strlit("0");
        reveal_strlit("1");
        reveal_strlit("2");
        reveal_strlit("3");
        reveal_strlit("4");
        reveal_strlit("5");
        reveal_strlit("6");
        reveal_strlit("7");
        reveal_strlit("8");
        reveal_strlit("9");
    }
    let s = if d == 0 {
        "0"
    } else if d == 1 {
        "1"
    } else if d == 2 {
        "2"
    } else if d == 3 {
        "3"
    } else if d == 4 {
        "4"
    } else if d == 5 {
        "5"
    } else if d == 6 {
        "6"
    } else if d == 7 {
        "7"
    } else if d == 8 {
        "8"
    } else {
        "9"
    };
    s
}

/// Writes `n` in decimal.
pub fn decimal_string(n: u64) -> (s: String)
    ensures
        s@ == decimal(n as nat),
    decreases n,
{
    if n < 10 {
        String::from_str(digit_str(n))
    } else {
        let mut s = decimal_string(n / 10);
        s.append(digit_str(n % 10));
        s
    }
}

/// The decimal numeral of `i`, with a minus sign below zero.
pub open spec fn signed_decimal(i: int) -> Seq<char> {
    if i < 0 {
        seq!['-'] + decimal((-i) as nat)
    } else {
        decimal(i as nat)
    }
}

/// Writes `i` in decimal, with a minus sign below zero.
pub fn signed_decimal_string(i: i64) -> (s: String)
    ensures
        s@ == signed_decimal(i as int),
{
    if i >= 0 {
        decimal_string(i as u64)
    } else {
        let magnitude: u64 = (-(i + 1)) as u64 + 1;
        let mut s = String::from_str("-");
        let digits = decimal_string(magnitude);
        s.append(digits.as_str());
        proof {
            reveal_strlit("-");
        }
        s
    }
}

/// Writes `n` in at least two digits, with a leading zero below ten.
pub fn two_digit_string(n: u64) -> (s: String)
    ensures
        s@ == two_digits(n as nat),
{
    if n < 10 {
        let mut s = String::from_str("0");
        s.append(digit_str(n));
        proof {
            reveal_strlit("0");
        }
        s
    } else {
        decimal_string(n)
    }
}

/// Below a hundred, different numbers are written differently in two
/// digits, and each in two characters.
pub proof fn lemma_two_digits_differ(a: nat, b: nat)
    requires
        a < 100,
        b < 100,
    ensures
        two_digits(a).len() == 2,
        two_digits(a) == two_digits(b) ==> a == b,
{
    reveal_with_fuel(decimal, 2);
    let written = |n: nat| seq![digit_char(n / 10), digit_char(n % 10)];
    assert(two_digits(a) =~= written(a));
    assert(two_digits(b) =~= written(b));
}

/// The digit that a character writes, if it writes one.
pub open spec fn digit_value(c: char) -> Option<nat> {
    if c == '0' {
        Some(0)
    } else if c == '1' {
        Some(1)
    } else if c == '2' {
        Some(2)
    } else if c == '3' {
        Some(3)
    } else if c == '4' {
        Some(4)
    } else if c == '5' {
        Some(5)
    } else if c == '6' {
        Some(6)
    } else if c == '7' {
        Some(7)
    } else if c == '8' {
        Some(8)
    } else if c == '9' {
        Some(9)
    } else {
        None
    }
}

/// The number that `text` writes in decimal: there is one where the text
/// is one digit or more and nothing else.
pub open spec fn number_of(text: Seq<char>) -> Option<nat>
    decreases text.len(),
{
    if text.len() == 0 {
        None
    } else {
        match digit_value(text.last()) {
            None => None,
            Some(digit) => if text.len() == 1 {
                Some(digit)
            } else {
                match number_of(text.drop_last()) {
                    Some(before) => Some(before * 10 + digit),
                    None => None,
                }
            },
        }
    }
}

/// A numeral reads as the number it was written for.
pub proof fn lemma_number_of_decimal(n: nat)
    ensures
        number_of(decimal(n)) == Some(n),
        decimal(n).len() > 0,
    decreases n,
{
    if n >= 10 {
        lemma_number_of_decimal(n / 10);
        let written = decimal(n);
        assert(written.drop_last() =~= decimal(n / 10));
    }
}

/// A text that goes on after a number writes no smaller number, if it
/// writes one at all.
pub proof fn lemma_number_grows(text: Seq<char>, start: int)
    requires
        1 <= start <= text.len(),
        number_of(text) is Some,
    ensures
        number_of(text.take(start)) is Some,
        number_of(text.take(start))->0 <= number_of(text)->0,
    decreases text.len() - start,
{
    if start < text.len() {
        assert(text.drop_last().take(start) =~= text.take(start));
        lemma_number_grows(text.drop_last(), start);
    } else {
        assert(text.take(start) =~= text);
    }
}

/// The digit that a character writes, if it writes one.
pub fn digit_of(c: char) -> (digit: Option<usize>)
    ensures
        match digit_value(c) {
            Some(value) => digit == Some(value as usize),
            None => digit is None,
        },
{
    if c == '0' {
        Some(0)
    } else if c == '1' {
        Some(1)
    } else if c == '2' {
        Some(2)
    } else if c == '3' {
        Some(3)
    } else if c == '4' {
        Some(4)
    } else if c == '5' {
        Some(5)
    } else if c == '6' {
        Some(6)
    } else if c == '7' {
        Some(7)
    } else if c == '8' {
        Some(8)
    } else if c == '9' {
        Some(9)
    } else {
        None
    }
}

/// Reads `text` as a number in decimal. There is none where the text holds
/// anything but digits, holds nothing, or writes a number that is too
/// large.
pub fn parse_number(text: &str) -> (number: Option<usize>)
    ensures
        match number_of(text@) {
            Some(value) => if value <= usize::MAX {
                number == Some(value as usize)
            } else {
                number is None
            },
            None => number is None,
        },
{
    let length = text.unicode_len();
    if length == 0 {
        return None;
    }
    let mut value: usize = 0;
    let mut i: usize = 0;
    while i < length
        invariant
            i <= length,
            length == text@.len(),
            i > 0 ==> number_of(text@.take(i as int)) == Some(value as nat),
            i == 0 ==> value == 0,
        decreases length - i,
    {
        let ghost longer = text@.take(i as int + 1);
        proof {
            assert(longer.drop_last() =~= text@.take(i as int));
            if number_of(text@) is Some {
                lemma_number_grows(text@, i as int + 1);
            }
        }
        let digit = match digit_of(text.get_char(i)) {
            Some(digit) => digit,
            None => {
                return None;
            },
        };
        let tens = match value.checked_mul(10) {
            Some(tens) => tens,
            None => {
                return None;
            },
        };
        value = match tens.checked_add(digit) {
            Some(sum) => sum,
            None => {
                return None;
            },
        };
        i += 1;
    }
    assert(text@.take(length as int) =~= text@);
    Some(value)
}

} // verus!
