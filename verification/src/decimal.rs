//! Decimal text of integers: what it is, how it is written and how it is read.

use vstd::prelude::*;

verus! {

/// The character that stands for the digit `d`.
pub open spec fn digit_char(d: int) -> char {
    (d + 48) as char
}

/// Whether `c` is one of the ten decimal digits.
pub open spec fn is_digit(c: char) -> bool {
    48 <= c as int <= 57
}

/// The number that the digit `c` stands for.
pub open spec fn digit_value(c: char) -> nat {
    (c as int - 48) as nat
}

/// The decimal digits of `n`, most significant first, without leading zeros.
pub open spec fn decimal_digits(n: nat) -> Seq<char>
    decreases n,
{
    if n < 10 {
        seq![digit_char(n as int)]
    } else {
        decimal_digits(n / 10).push(digit_char((n % 10) as int))
    }
}

/// The decimal text of a signed number: a minus sign where it is negative,
/// then the digits of its magnitude.
pub open spec fn decimal_text(v: int) -> Seq<char> {
    if v < 0 {
        seq!['-'] + decimal_digits((-v) as nat)
    } else {
        decimal_digits(v as nat)
    }
}

/// Whether every character of `s` is a decimal digit.
pub open spec fn all_digits(s: Seq<char>) -> bool {
    forall|i: int| 0 <= i < s.len() ==> is_digit(#[trigger] s[i])
}

/// The number that a run of digits denotes; leading zeros count for nothing.
pub open spec fn digits_value(s: Seq<char>) -> nat
    decreases s.len(),
{
    if s.len() == 0 {
        0
    } else {
        digits_value(s.drop_last()) * 10 + digit_value(s.last())
    }
}

/// `s` without the one plus sign that may stand in front of a number.
pub open spec fn without_plus(s: Seq<char>) -> Seq<char> {
    if s.len() > 0 && s[0] == '+' {
        s.drop_first()
    } else {
        s
    }
}

/// The 16-bit unsigned number that `s` denotes: an optional plus sign, then
/// one or more digits whose value is at most 65535. Anything else denotes
/// none.
pub open spec fn parsed_u16(s: Seq<char>) -> Option<u16> {
    let digits = without_plus(s);
    if digits.len() > 0 && all_digits(digits) && digits_value(digits) <= u16::MAX {
        Some(digits_value(digits) as u16)
    } else {
        None
    }
}

fn digit_str(d: u64) -> (text: &'static str)
    requires
        d < 10,
    ensures
        text@ == seq![digit_char(d as int)],
{
    proof {
        reveal_strlit("0");
        reveal_strlit("1");
        reveal_strlit("2");
        reveal_strlit("3");
        reveal_strlit("4");
        reveal_strlit("5");
        reveal_strlit("6");
        reveal_strlit("7");
        reveal_strlit("8");
        reveal_strlit("9");
    }
    let text: &'static str = if d == 0 {
        "0"
    } else if d == 1 {
        "1"
    } else if d == 2 {
        "2"
    } else if d == 3 {
        "3"
    } else if d == 4 {
        "4"
    } else if d == 5 {
        "5"
    } else if d == 6 {
        "6"
    } else if d == 7 {
        "7"
    } else if d == 8 {
        "8"
    } else {
        "9"
    };
    assert(text@ =~= seq![digit_char(d as int)]);
    text
}

/// Writes an unsigned number in decimal.
pub fn render_unsigned(value: u64) -> (text: String)
    ensures
        text@ == decimal_digits(value as nat),
    decreases value,
{
    if value < 10 {
        String::from_str(digit_str(value))
    } else {
        let mut text = render_unsigned(value / 10);
        text.append(digit_str(value % 10));
        assert(text@ =~= decimal_digits(value as nat));
        text
    }
}

/// Writes a signed number in decimal.
pub fn render_signed(value: i32) -> (text: String)
    ensures
        text@ == decimal_text(value as int),
{
    if value < 0 {
        let magnitude: u64 = (-(value as i64)) as u64;
        let mut text = String::from_str("-");
        let digits = render_unsigned(magnitude);
        text.append(digits.as_str());
        proof {
            reveal_strlit("-");
            assert(text@ =~= decimal_text(value as int));
        }
        text
    } else {
        render_unsigned(value as u64)
    }
}

/// A run of digits denotes at least what any of its prefixes denotes.
proof fn lemma_value_grows(s: Seq<char>, k: int)
    requires
        0 <= k <= s.len(),
    ensures
        digits_value(s.take(k)) <= digits_value(s),
    decreases s.len() - k,
{
    if k == s.len() {
        assert(s.take(k) =~= s);
    } else {
        lemma_value_grows(s, k + 1);
        assert(s.take(k + 1).drop_last() =~= s.take(k));
    }
}

/// Reads a 16-bit unsigned number.
pub fn parse_u16(text: &str) -> (number: Option<u16>)
    ensures
        number == parsed_u16(text@),
{
    let len: usize = text.unicode_len();
    let mut at: usize = 0;
    if len > 0 && text.get_char(0) == '+' {
        at = 1;
    }
    let start: usize = at;
    let ghost digits: Seq<char> = without_plus(text@);
    assert(digits =~= text@.subrange(start as int, len as int));
    if at == len {
        return None;
    }
    let mut value: u32 = 0;
    while at < len
        invariant
            start <= at <= len,
            len == text@.len(),
            digits == without_plus(text@),
            digits == text@.subrange(start as int, len as int),
            all_digits(digits.take(at - start)),
            value == digits_value(digits.take(at - start)),
            value <= u16::MAX,
        decreases len - at,
    {
        let c: char = text.get_char(at);
        assert(c == digits[at - start]);
        if !('0' <= c && c <= '9') {
            assert(!is_digit(digits[at - start]));
            return None;
        }
        let d: u32 = c as u32 - 48;
        let next: u32 = value * 10 + d;
        proof {
            let upto = digits.take(at - start + 1);
            assert(upto.drop_last() =~= digits.take(at - start));
            assert(upto.last() == c);
            assert(next == digits_value(upto));
            assert forall|i: int| 0 <= i < upto.len() implies is_digit(#[trigger] upto[i]) by {
                if i < at - start {
                    assert(upto[i] == digits.take(at - start)[i]);
                }
            }
        }
        if next > 65535 {
            proof {
                lemma_value_grows(digits, at - start + 1);
            }
            return None;
        }
        value = next;
        at = at + 1;
    }
    assert(digits.take(at - start) =~= digits);
    Some(value as u16)
}

/// The decimal digits of a number are digits, at least one, and denote it.
pub proof fn lemma_digits_denote(n: nat)
    ensures
        decimal_digits(n).len() > 0,
        all_digits(decimal_digits(n)),
        digits_value(decimal_digits(n)) == n,
    decreases n,
{
    let digits = decimal_digits(n);
    if n < 10 {
        assert(digits.drop_last() =~= Seq::<char>::empty());
        assert(digits_value(digits.drop_last()) == 0);
    } else {
        lemma_digits_denote(n / 10);
        assert(digits.drop_last() =~= decimal_digits(n / 10));
        assert forall|i: int| 0 <= i < digits.len() implies is_digit(#[trigger] digits[i]) by {
            if i < digits.len() - 1 {
                assert(digits[i] == decimal_digits(n / 10)[i]);
            }
        }
    }
}

/// Reading gives back what writing was given: the decimal text of a 16-bit
/// unsigned number denotes that number.
pub proof fn written_u16_reads_back(n: u16)
    ensures
        parsed_u16(decimal_digits(n as nat)) == Some(n),
{
    lemma_digits_denote(n as nat);
    let digits = decimal_digits(n as nat);
    assert(is_digit(digits[0]));
    assert(without_plus(digits) == digits);
}

} // verus!
