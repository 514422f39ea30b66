//! Reading and writing numbers as text, and the texts of literals.

use vstd::prelude::*;
use vstd::string::*;

verus! {

/// The digit that a character stands for.
pub open spec fn digit_value(c: char) -> Option<int> {
    if c == '0' {
        Some(0)
    } else if c == '1' {
        Some(1)
    } else if c == '2' {
        Some(2)
    } else if c == '3' {
        Some(3)
    } else if c == '4' {
        Some(4)
    } else if c == '5' {
        Some(5)
    } else if c == '6' {
        Some(6)
    } else if c == '7' {
        Some(7)
    } else if c == '8' {
        Some(8)
    } else if c == '9' {
        Some(9)
    } else {
        None
    }
}

/// The number that a non-empty run of decimal digits stands for.
pub open spec fn digits_value(s: Seq<char>) -> Option<int>
    decreases s.len(),
{
    if s.len() == 0 {
        None
    } else if s.len() == 1 {
        digit_value(s[0])
    } else {
        match (digits_value(s.drop_last()), digit_value(s.last())) {
            (Some(high), Some(low)) => Some(high * 10 + low),
            _ => None,
        }
    }
}

/// The integer that a numeral stands for: decimal digits after an optional sign.
pub open spec fn numeral_value(s: Seq<char>) -> Option<int> {
    if s.len() > 0 && s[0] == '-' {
        match digits_value(s.skip(1)) {
            Some(v) => Some(-v),
            None => None,
        }
    } else if s.len() > 0 && s[0] == '+' {
        digits_value(s.skip(1))
    } else {
        digits_value(s)
    }
}

/// The 64-bit signed integer that a numeral stands for, if it is one and fits.
pub open spec fn i64_of(s: Seq<char>) -> Option<i64> {
    match numeral_value(s) {
        Some(v) => if i64::MIN <= v <= i64::MAX {
            Some(v as i64)
        } else {
            None
        },
        None => None,
    }
}

/// The index that a numeral stands for, if it has no minus sign and fits.
pub open spec fn usize_of(s: Seq<char>) -> Option<usize> {
    if s.len() > 0 && s[0] == '-' {
        None
    } else {
        match numeral_value(s) {
            Some(v) => if v <= usize::MAX {
                Some(v as usize)
            } else {
                None
            },
            None => None,
        }
    }
}

/// A run of digits stands for a number that is not negative.
pub proof fn lemma_digits_nonnegative(s: Seq<char>)
    ensures
        digits_value(s) is Some ==> digits_value(s)->0 >= 0,
    decreases s.len(),
{
    if s.len() > 1 {
        lemma_digits_nonnegative(s.drop_last());
    }
}

/// A longer run of digits does not stand for a smaller number than its beginning does.
pub proof fn lemma_digits_grow(s: Seq<char>, n: int)
    requires
        0 < n <= s.len(),
        digits_value(s) is Some,
    ensures
        digits_value(s.subrange(0, n)) is Some,
        digits_value(s.subrange(0, n))->0 <= digits_value(s)->0,
    decreases s.len(),
{
    if n == s.len() {
        assert(s.subrange(0, n) =~= s);
    } else {
        assert(s.drop_last().subrange(0, n) =~= s.subrange(0, n));
        lemma_digits_grow(s.drop_last(), n);
        lemma_digits_nonnegative(s.drop_last());
    }
}

/// Decides [`digit_value`].
fn digit_of(c: char) -> (r: Option<u8>)
    ensures
        match r {
            Some(d) => digit_value(c) == Some(d as int),
            None => digit_value(c) is None,
        },
{
    if c == '0' {
        Some(0)
    } else if c == '1' {
        Some(1)
    } else if c == '2' {
        Some(2)
    } else if c == '3' {
        Some(3)
    } else if c == '4' {
        Some(4)
    } else if c == '5' {
        Some(5)
    } else if c == '6' {
        Some(6)
    } else if c == '7' {
        Some(7)
    } else if c == '8' {
        Some(8)
    } else if c == '9' {
        Some(9)
    } else {
        None
    }
}

/// Reads the digits of `text` from position `start` on, as a number up to `limit`.
fn read_digits(text: &str, start: usize, limit: u64) -> (r: Option<u64>)
    requires
        start <= text@.len(),
        limit >= 9,
    ensures
        match r {
            Some(v) => digits_value(text@.skip(start as int)) == Some(v as int) && v <= limit,
            None => digits_value(text@.skip(start as int)) is None || digits_value(
                text@.skip(start as int),
            )->0 > limit,
        },
{
    let len = text.unicode_len();
    let ghost tail = text@.skip(start as int);
    if start >= len {
        return None;
    }
    let mut acc: u64 = 0;
    let mut i: usize = start;
    while i < len
        invariant
            start <= i <= len,
            len == text@.len(),
            tail == text@.skip(start as int),
            acc <= limit,
            limit >= 9,
            i > start ==> digits_value(tail.subrange(0, i - start)) == Some(acc as int),
            i == start ==> acc == 0,
        decreases len - i,
    {
        let c = text.get_char(i);
        let ghost before = tail.subrange(0, i - start);
        let ghost upto = tail.subrange(0, i - start + 1);
        proof {
            assert(upto.last() == c);
            assert(upto.drop_last() =~= before);
        }
        match digit_of(c) {
            None => {
                proof {
                    if digits_value(tail) is Some {
                        lemma_digits_grow(tail, i - start + 1);
                    }
                }
                return None;
            },
            Some(d) => {
                if acc > (limit - d as u64) / 10 {
                    proof {
                        assert(acc * 10 + d > limit);
                        assert(digits_value(upto) == Some(acc * 10 + d));
                        if digits_value(tail) is Some {
                            lemma_digits_grow(tail, i - start + 1);
                        }
                    }
                    return None;
                }
                assert(acc * 10 + d <= limit);
                acc = acc * 10 + d as u64;
                assert(digits_value(upto) == Some(acc as int));
            },
        }
        i += 1;
    }
    assert(tail.subrange(0, len - start) =~= tail);
    Some(acc)
}

/// Reads a numeral as a 64-bit signed integer.
pub fn parse_i64(text: &str) -> (r: Option<i64>)
    ensures
        r == i64_of(text@),
{
    let len = text.unicode_len();
    if len == 0 {
        return None;
    }
    let first = text.get_char(0);
    proof {
        lemma_digits_nonnegative(text@.skip(1));
        lemma_digits_nonnegative(text@);
        assert(text@.skip(0) =~= text@);
    }
    if first == '-' {
        match read_digits(text, 1, 0x8000_0000_0000_0000) {
            Some(v) => {
                if v == 0x8000_0000_0000_0000 {
                    Some(i64::MIN)
                } else {
                    Some(-(v as i64))
                }
            },
            None => None,
        }
    } else if first == '+' {
        match read_digits(text, 1, 0x7fff_ffff_ffff_ffff) {
            Some(v) => Some(v as i64),
            None => None,
        }
    } else {
        match read_digits(text, 0, 0x7fff_ffff_ffff_ffff) {
            Some(v) => Some(v as i64),
            None => None,
        }
    }
}

/// Reads a numeral as an index.
pub fn parse_usize(text: &str) -> (r: Option<usize>)
    ensures
        r == usize_of(text@),
{
    let len = text.unicode_len();
    if len == 0 {
        return None;
    }
    let first = text.get_char(0);
    proof {
        lemma_digits_nonnegative(text@.skip(1));
        lemma_digits_nonnegative(text@);
        assert(text@.skip(0) =~= text@);
    }
    if first == '-' {
        None
    } else if first == '+' {
        match read_digits(text, 1, usize::MAX as u64) {
            Some(v) => Some(v as usize),
            None => None,
        }
    } else {
        match read_digits(text, 0, usize::MAX as u64) {
            Some(v) => Some(v as usize),
            None => None,
        }
    }
}

/// The text of one decimal digit.
pub open spec fn digit_text(d: int) -> Seq<char> {
    if d == 0 {
        "0"@
    } else if d == 1 {
        "1"@
    } else if d == 2 {
        "2"@
    } else if d == 3 {
        "3"@
    } else if d == 4 {
        "4"@
    } else if d == 5 {
        "5"@
    } else if d == 6 {
        "6"@
    } else if d == 7 {
        "7"@
    } else if d == 8 {
        "8"@
    } else {
        "9"@
    }
}

/// A number written in decimal, without leading zeros.
pub open spec fn decimal_text(n: nat) -> Seq<char>
    decreases n,
{
    if n < 10 {
        digit_text(n as int)
    } else {
        decimal_text(n / 10) + digit_text((n % 10) as int)
    }
}

/// Writes [`digit_text`].
fn digit_str(d: u128) -> (s: &'static str)
    requires
        d < 10,
    ensures
        s@ == digit_text(d as int),
{
    if d == 0 {
        "0"
    } else if d == 1 {
        "1"
    } else if d == 2 {
        "2"
    } else if d == 3 {
        "3"
    } else if d == 4 {
        "4"
    } else if d == 5 {
        "5"
    } else if d == 6 {
        "6"
    } else if d == 7 {
        "7"
    } else if d == 8 {
        "8"
    } else {
        "9"
    }
}

/// Writes a number in decimal.
pub fn decimal(n: u128) -> (s: String)
    ensures
        s@ == decimal_text(n as nat),
    decreases n,
{
    if n < 10 {
        String::from_str(digit_str(n))
    } else {
        let mut s = decimal(n / 10);
        s.append(digit_str(n % 10));
        s
    }
}

/// The character that a character literal denotes: the first byte of its text.
pub open spec fn char_of(text: Seq<char>) -> char {
    vstd::utf8::encode_utf8(text)[0] as char
}

/// Reads a character literal.
pub fn parse_char(text: &str) -> (c: char)
    requires
        text@.len() > 0,
    ensures
        c == char_of(text@),
{
    let b: u8 = text.as_bytes()[0];
    b as char
}

/// Whether a text is a string literal: it begins and ends with a double quote.
pub open spec fn is_quoted(text: Seq<char>) -> bool {
    text.len() >= 2 && text[0] == '"' && text.last() == '"'
}

/// What a string literal holds between its quotes.
pub open spec fn unquoted(text: Seq<char>) -> Seq<char> {
    text.subrange(1, text.len() - 1)
}

/// Decides [`is_quoted`].
pub fn check_quoted(text: &str) -> (r: bool)
    ensures
        r == is_quoted(text@),
{
    let len = text.unicode_len();
    len >= 2 && text.get_char(0) == '"' && text.get_char(len - 1) == '"'
}

/// Reads a string literal: drops its first and its last character.
pub fn parse_str(text: &str) -> (s: String)
    requires
        text@.len() >= 2,
    ensures
        s@ == unquoted(text@),
{
    let len = text.unicode_len();
    String::from_str(text.substring_char(1, len - 1))
}

/// Whether a text is the given word.
pub fn is_word(text: &str, word: &str) -> (r: bool)
    ensures
        r == (text@ == word@),
{
    let a = String::from_str(text);
    let b = String::from_str(word);
    a == b
}

} // verus!
