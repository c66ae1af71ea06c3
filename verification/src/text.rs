use vstd::prelude::*;
use vstd::string::{StrSliceExecFns, StringExecFns};

verus! {

/// The parts of `parts` written one after the other with `separator` between
/// each two neighbours, and nothing before the first or after the last.
pub open spec fn join(parts: Seq<Seq<char>>, separator: Seq<char>) -> Seq<char>
    decreases parts.len(),
{
    if parts.len() == 0 {
        Seq::empty()
    } else if parts.len() == 1 {
        parts[0]
    } else {
        join(parts.drop_last(), separator) + separator + parts.last()
    }
}

/// The text of one decimal digit; empty for a number that is no digit.
pub open spec fn digit_text(digit: nat) -> Seq<char> {
    if digit == 0 {
        "0"@
    } else if digit == 1 {
        "1"@
    } else if digit == 2 {
        "2"@
    } else if digit == 3 {
        "3"@
    } else if digit == 4 {
        "4"@
    } else if digit == 5 {
        "5"@
    } else if digit == 6 {
        "6"@
    } else if digit == 7 {
        "7"@
    } else if digit == 8 {
        "8"@
    } else if digit == 9 {
        "9"@
    } else {
        Seq::empty()
    }
}

/// A natural number in decimal notation, without sign or leading zeros.
pub open spec fn decimal_text(n: nat) -> Seq<char>
    decreases n,
{
    if n < 10 {
        digit_text(n)
    } else {
        decimal_text(n / 10) + digit_text(n % 10)
    }
}

/// Each digit is written with exactly one character.
pub proof fn digit_text_is_one_char(digit: nat)
    requires
        digit < 10,
    ensures
        digit_text(digit).len() == 1,
        digit_text(digit)[0] == ('0' as u8 + digit) as char,
{
    reveal_strlit("0");
    reveal_strlit("1");
    reveal_strlit("2");
    reveal_strlit("3");
    reveal_strlit("4");
    reveal_strlit("5");
    reveal_strlit("6");
    reveal_strlit("7");
    reveal_strlit("8");
    reveal_strlit("9");
}

fn digit_str(digit: u64) -> (r: &'static str)
    requires
        digit < 10,
    ensures
        r@ == digit_text(digit as nat),
{
    if digit == 0 {
        "0"
    } else if digit == 1 {
        "1"
    } else if digit == 2 {
        "2"
    } else if digit == 3 {
        "3"
    } else if digit == 4 {
        "4"
    } else if digit == 5 {
        "5"
    } else if digit == 6 {
        "6"
    } else if digit == 7 {
        "7"
    } else if digit == 8 {
        "8"
    } else {
        "9"
    }
}

/// Writes `n` in decimal notation.
pub fn u64_to_decimal(n: u64) -> (r: String)
    ensures
        r@ == decimal_text(n as nat),
    decreases n,
{
    if n < 10 {
        String::from_str(digit_str(n))
    } else {
        let mut text = u64_to_decimal(n / 10);
        text.append(digit_str(n % 10));
        text
    }
}

/// Joins `parts` with `separator` between each two neighbours.
pub fn join_strings(parts: &Vec<String>, separator: &str) -> (r: String)
    ensures
        r@ == join(parts@.map_values(|part: String| part@), separator@),
{
    let ghost texts = parts@.map_values(|part: String| part@);
    let mut out = String::new();
    let mut i: usize = 0;
    while i < parts.len()
        invariant
            i <= parts.len(),
            texts == parts@.map_values(|part: String| part@),
            out@ == join(texts.take(i as int), separator@),
        decreases parts.len() - i,
    {
        proof {
            let before = texts.take(i as int);
            let after = texts.take(i + 1);
            assert(after.drop_last() == before);
            assert(after.last() == parts@[i as int]@);
        }
        if i > 0 {
            out.append(separator);
        }
        out.append(parts[i].as_str());
        i = i + 1;
    }
    proof {
        assert(texts.take(i as int) == texts);
    }
    out
}

/// Tells whether `c` is a decimal digit.
pub open spec fn is_digit(c: char) -> bool {
    '0' <= c <= '9'
}

/// The number that a decimal digit stands for.
pub open spec fn digit_of(c: char) -> nat {
    (c as int - '0' as int) as nat
}

/// Tells whether `text` holds decimal digits and nothing else.
pub open spec fn all_digits(text: Seq<char>) -> bool {
    forall|i: int| 0 <= i < text.len() ==> is_digit(#[trigger] text[i])
}

/// The number that a text of decimal digits stands for, leading zeros
/// allowed.
pub open spec fn digits_value(text: Seq<char>) -> nat
    decreases text.len(),
{
    if text.len() == 0 {
        0
    } else {
        digits_value(text.drop_last()) * 10 + digit_of(text.last())
    }
}

/// The number that `text` stands for if it is one or more decimal digits
/// and the number fits in 64 bits.
pub open spec fn parsed_digits(text: Seq<char>) -> Option<u64> {
    if text.len() > 0 && all_digits(text) && digits_value(text) <= u64::MAX {
        Some(digits_value(text) as u64)
    } else {
        None
    }
}

/// The number that `text` stands for as an unsigned integer is written in
/// Rust: an optional plus sign, then one or more decimal digits.
pub open spec fn parsed_u64(text: Seq<char>) -> Option<u64> {
    if text.len() > 0 && text[0] == '+' {
        parsed_digits(text.drop_first())
    } else {
        parsed_digits(text)
    }
}

/// More digits never stand for a smaller number.
pub proof fn digits_value_grows(text: Seq<char>, k: int)
    requires
        0 <= k <= text.len(),
    ensures
        digits_value(text.take(k)) <= digits_value(text),
    decreases text.len(),
{
    if k == text.len() {
        assert(text.take(k) == text);
    } else {
        let shorter = text.drop_last();
        digits_value_grows(shorter, k);
        assert(shorter.take(k) == text.take(k));
    }
}

fn parse_digits_from(text: &str, start: usize) -> (r: Option<u64>)
    requires
        start <= text@.len(),
    ensures
        r == parsed_digits(text@.skip(start as int)),
{
    let ghost digits = text@.skip(start as int);
    let length = text.unicode_len();
    if start >= length {
        return None;
    }
    let mut value: u64 = 0;
    let mut i: usize = start;
    proof {
        assert(digits.take(0).len() == 0);
    }
    while i < length
        invariant
            start <= i <= length,
            length == text@.len(),
            digits == text@.skip(start as int),
            all_digits(digits.take(i - start)),
            value == digits_value(digits.take(i - start)),
        decreases length - i,
    {
        let c = text.get_char(i);
        proof {
            let seen = digits.take(i - start);
            let more = digits.take(i - start + 1);
            assert(more.drop_last() == seen);
            assert(more.last() == c);
            assert(digits[i - start] == c);
            digits_value_grows(digits, i - start + 1);
        }
        if !(c >= '0' && c <= '9') {
            return None;
        }
        let digit: u64 = (c as u64) - 48;
        let tenfold = match value.checked_mul(10) {
            Some(t) => t,
            None => {
                return None;
            },
        };
        value = match tenfold.checked_add(digit) {
            Some(v) => v,
            None => {
                return None;
            },
        };
        i = i + 1;
    }
    proof {
        assert(digits.take(length - start) == digits);
    }
    Some(value)
}

/// Reads a text of decimal digits.
pub fn parse_digits(text: &str) -> (r: Option<u64>)
    ensures
        r == parsed_digits(text@),
{
    proof {
        assert(text@.skip(0) == text@);
    }
    parse_digits_from(text, 0)
}

/// Reads an unsigned integer as Rust writes it.
pub fn parse_u64(text: &str) -> (r: Option<u64>)
    ensures
        r == parsed_u64(text@),
{
    let length = text.unicode_len();
    if length > 0 && text.get_char(0) == '+' {
        proof {
            assert(text@.skip(1) == text@.drop_first());
        }
        parse_digits_from(text, 1)
    } else {
        proof {
            assert(text@.skip(0) == text@);
        }
        parse_digits_from(text, 0)
    }
}

/// What is written of a number is read back as that number.
pub proof fn decimal_text_reads_back(n: nat)
    ensures
        decimal_text(n).len() > 0,
        all_digits(decimal_text(n)),
        digits_value(decimal_text(n)) == n,
        n <= u64::MAX ==> parsed_digits(decimal_text(n)) == Some(n as u64) && parsed_u64(
            decimal_text(n),
        ) == Some(n as u64),
    decreases n,
{
    let written = decimal_text(n);
    let last = digit_text(n % 10);
    digit_text_is_one_char(n % 10);
    if n < 10 {
        assert(written.drop_last().len() == 0);
        assert(digits_value(written.drop_last()) == 0);
    } else {
        let front = decimal_text(n / 10);
        decimal_text_reads_back(n / 10);
        assert(written == front + last);
        assert(written.drop_last() == front);
        assert(written.last() == last[0]);
        assert forall|i: int| 0 <= i < written.len() implies is_digit(#[trigger] written[i]) by {
            if i < front.len() {
                assert(written[i] == front[i]);
            } else {
                assert(written[i] == last[0]);
            }
        }
    }
    assert(is_digit(written[0]));
}

} // verus!
