//! Decimal numerals: how an identifier is written where the wire format wants
//! a string, as in the names of an object's members.

use vstd::prelude::*;
use vstd::string::StringExecFns;

verus! {

/// The character that stands for a digit below ten.
pub open spec fn digit_char(digit: nat) -> char {
    if digit == 0 {
        '0'
    } else if digit == 1 {
        '1'
    } else if digit == 2 {
        '2'
    } else if digit == 3 {
        '3'
    } else if digit == 4 {
        '4'
    } else if digit == 5 {
        '5'
    } else if digit == 6 {
        '6'
    } else if digit == 7 {
        '7'
    } else if digit == 8 {
        '8'
    } else {
        '9'
    }
}

/// The digit that a character stands for, if it is one of `0` to `9`.
pub open spec fn digit_value(c: char) -> Option<nat> {
    if c == '0' {
        Some(0)
    } else if c == '1' {
        Some(1)
    } else if c == '2' {
        Some(2)
    } else if c == '3' {
        Some(3)
    } else if c == '4' {
        Some(4)
    } else if c == '5' {
        Some(5)
    } else if c == '6' {
        Some(6)
    } else if c == '7' {
        Some(7)
    } else if c == '8' {
        Some(8)
    } else if c == '9' {
        Some(9)
    } else {
        None
    }
}

/// The numeral of a number: its decimal digits, the most significant first,
/// with no leading zero.
pub open spec fn decimal(n: nat) -> Seq<char>
    decreases n,
{
    if n < 10 {
        seq![digit_char(n)]
    } else {
        decimal(n / 10).push(digit_char(n % 10))
    }
}

/// The number that a numeral stands for. Only digits are read, at least one,
/// and a numeral of several digits does not begin with `0`.
pub open spec fn numeral_value(s: Seq<char>) -> Option<nat>
    decreases s.len(),
{
    if s.len() == 0 {
        None
    } else if s.len() == 1 {
        digit_value(s[0])
    } else {
        match (numeral_value(s.drop_last()), digit_value(s.last())) {
            (Some(high), Some(low)) => if high == 0 {
                None
            } else {
                Some(high * 10 + low)
            },
            _ => None,
        }
    }
}

/// Reading a number's numeral gives the number back.
pub proof fn lemma_numeral_of_decimal(n: nat)
    ensures
        numeral_value(decimal(n)) == Some(n),
        decimal(n).len() >= 1,
    decreases n,
{
    if n >= 10 {
        lemma_numeral_of_decimal(n / 10);
        let s = decimal(n);
        assert(s.drop_last() =~= decimal(n / 10));
        assert(s.last() == digit_char(n % 10));
    }
}

/// A numeral is the decimal of the number it stands for: no number has two
/// numerals.
pub proof fn lemma_decimal_of_numeral(s: Seq<char>)
    requires
        numeral_value(s) is Some,
    ensures
        decimal(numeral_value(s)->Some_0) == s,
    decreases s.len(),
{
    let n = numeral_value(s)->Some_0;
    if s.len() == 1 {
        assert(decimal(n) =~= s);
    } else {
        let high = numeral_value(s.drop_last())->Some_0;
        let low = digit_value(s.last())->Some_0;
        lemma_decimal_of_numeral(s.drop_last());
        assert(n / 10 == high && n % 10 == low);
        assert(decimal(n) =~= s);
    }
}

/// The one-character text of a digit.
fn digit_text(digit: usize) -> (text: &'static str)
    requires
        digit < 10,
    ensures
        text@ == seq![digit_char(digit as nat)],
{
    proof {
        reveal_strlit("0");
        reveal_strlit("1");
        reveal_strlit("2");
        reveal_strlit("3");
        reveal_strlit("4");
        reveal_strlit("5");
        reveal_strlit("6");
        reveal_strlit("7");
        reveal_strlit("8");
        reveal_strlit("9");
    }
    let text: &'static str = if digit == 0 {
        "0"
    } else if digit == 1 {
        "1"
    } else if digit == 2 {
        "2"
    } else if digit == 3 {
        "3"
    } else if digit == 4 {
        "4"
    } else if digit == 5 {
        "5"
    } else if digit == 6 {
        "6"
    } else if digit == 7 {
        "7"
    } else if digit == 8 {
        "8"
    } else {
        "9"
    };
    assert(text@ =~= seq![digit_char(digit as nat)]);
    text
}

/// Writes a number as its numeral.
pub fn decimal_text(n: usize) -> (text: String)
    ensures
        text@ == decimal(n as nat),
    decreases n,
{
    if n < 10 {
        digit_text(n).to_owned()
    } else {
        let mut text: String = decimal_text(n / 10);
        text.append(digit_text(n % 10));
        assert(text@ =~= decimal(n as nat));
        text
    }
}

/// The digit behind a character.
fn digit_of(c: char) -> (digit: Option<usize>)
    ensures
        match digit {
            Some(d) => digit_value(c) == Some(d as nat) && d < 10,
            None => digit_value(c) is None,
        },
{
    if c == '0' {
        Some(0)
    } else if c == '1' {
        Some(1)
    } else if c == '2' {
        Some(2)
    } else if c == '3' {
        Some(3)
    } else if c == '4' {
        Some(4)
    } else if c == '5' {
        Some(5)
    } else if c == '6' {
        Some(6)
    } else if c == '7' {
        Some(7)
    } else if c == '8' {
        Some(8)
    } else if c == '9' {
        Some(9)
    } else {
        None
    }
}

/// A numeral's value only grows with each digit that is read.
proof fn lemma_numeral_prefix_grows(s: Seq<char>, len: int)
    requires
        1 <= len <= s.len(),
        numeral_value(s) is Some,
    ensures
        numeral_value(s.subrange(0, len)) is Some,
        numeral_value(s.subrange(0, len))->Some_0 <= numeral_value(s)->Some_0,
    decreases s.len(),
{
    if len == s.len() {
        assert(s.subrange(0, len) =~= s);
    } else {
        assert(s.drop_last().subrange(0, len) =~= s.subrange(0, len));
        lemma_numeral_prefix_grows(s.drop_last(), len);
    }
}

/// Where a prefix is no numeral, or stands for too large a number, the whole
/// text is no numeral that fits either.
proof fn lemma_numeral_prefix_fails(s: Seq<char>, len: int, bound: nat)
    requires
        1 <= len <= s.len(),
        match numeral_value(s.subrange(0, len)) {
            Some(n) => n > bound,
            None => true,
        },
    ensures
        match numeral_value(s) {
            Some(n) => n > bound,
            None => true,
        },
{
    if numeral_value(s) is Some {
        lemma_numeral_prefix_grows(s, len);
    }
}

/// Reads a numeral. The result is the number it stands for where the text is
/// a numeral and the number fits; else there is none.
pub fn numeral(text: &str) -> (number: Option<usize>)
    ensures
        number == match numeral_value(text@) {
            Some(n) if n <= usize::MAX => Some(n as usize),
            _ => None::<usize>,
        },
{
    let len: usize = text.unicode_len();
    if len == 0 {
        return None;
    }
    let first: Option<usize> = digit_of(text.get_char(0));
    let mut value: usize = match first {
        Some(d) => d,
        None => {
            proof {
                assert(text@.subrange(0, 1).len() == 1);
                assert(text@.subrange(0, 1)[0] == text@[0]);
                lemma_numeral_prefix_fails(text@, 1, usize::MAX as nat);
            }
            return None;
        },
    };
    assert(text@.subrange(0, 1)[0] == text@[0]);
    let mut i: usize = 1;
    while i < len
        invariant
            1 <= i <= len,
            len == text@.len(),
            numeral_value(text@.subrange(0, i as int)) == Some(value as nat),
        decreases len - i,
    {
        let ghost prefix = text@.subrange(0, i + 1);
        assert(prefix.drop_last() =~= text@.subrange(0, i as int));
        assert(prefix.last() == text@[i as int]);
        let digit: Option<usize> = digit_of(text.get_char(i));
        let low: usize = match digit {
            Some(d) => d,
            None => {
                proof {
                    lemma_numeral_prefix_fails(text@, i + 1, usize::MAX as nat);
                }
                return None;
            },
        };
        if value == 0 || value > (usize::MAX - low) / 10 {
            proof {
                lemma_numeral_prefix_fails(text@, i + 1, usize::MAX as nat);
            }
            return None;
        }
        value = value * 10 + low;
        i = i + 1;
    }
    assert(text@.subrange(0, i as int) =~= text@);
    Some(value)
}

} // verus!
