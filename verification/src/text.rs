//! Characters, decimal numbers and white space.

use vstd::prelude::*;

verus! {

/// `String::push` of the standard library.
///
/// Trusted: the text afterwards is the text before with the character at its end.
pub assume_specification[ String::push ](s: &mut String, c: char)
    ensures
        final(s)@ == old(s)@.push(c),
;

/// `==` on `str`, the `eq` of its `PartialEq` in the standard library.
///
/// Trusted: two texts are equal exactly when they hold the same characters in the same
/// order.
pub assume_specification[ <str as PartialEq>::eq ](a: &str, b: &str) -> (same: bool)
    ensures
        same == (a@ == b@),
;

/// An ASCII decimal digit.
pub open spec fn is_digit(c: char) -> bool {
    '0' <= c && c <= '9'
}

/// The number that an ASCII decimal digit stands for.
pub open spec fn digit_value(c: char) -> int {
    c as int - 48
}

/// The ASCII decimal digit that stands for `d`, for `d` below ten.
pub open spec fn digit_char(d: int) -> char {
    (48 + d) as char
}

/// A non-empty text of ASCII decimal digits.
pub open spec fn is_decimal(s: Seq<char>) -> bool {
    s.len() > 0 && forall|i: int| 0 <= i < s.len() ==> is_digit(#[trigger] s[i])
}

/// The number that a text of decimal digits denotes, most significant digit first.
pub open spec fn decimal_value(s: Seq<char>) -> nat
    decreases s.len(),
{
    if s.len() == 0 {
        0
    } else {
        (10 * decimal_value(s.drop_last()) + digit_value(s.last())) as nat
    }
}

/// The number that `s` denotes, where it is a decimal number that fits in 32 bits.
pub open spec fn parsed_u32(s: Seq<char>) -> Option<u32> {
    if is_decimal(s) && decimal_value(s) <= u32::MAX {
        Some(decimal_value(s) as u32)
    } else {
        None
    }
}

/// The shortest decimal text that denotes `n`.
pub open spec fn decimal_text(n: nat) -> Seq<char>
    decreases n,
{
    if n < 10 {
        seq![digit_char(n as int)]
    } else {
        decimal_text(n / 10).push(digit_char((n % 10) as int))
    }
}

/// The number of a character is a code point, and fits 32 bits.
pub proof fn lemma_char_range(c: char)
    ensures
        0 <= c as int <= 0x10FFFF,
        c as u32 == c as int,
{
}

/// The characters of a text, in order.
pub fn chars_of(s: &str) -> (out: Vec<char>)
    ensures
        out@ == s@,
{
    let mut out: Vec<char> = Vec::new();
    for c in it: s.chars()
        invariant
            out@ == it.seq().take(it.index() as int),
            it.seq() == s@,
    {
        out.push(c);
    }
    out
}

/// The value of one decimal digit.
pub fn digit_of(c: char) -> (d: Option<u32>)
    ensures
        d is Some == is_digit(c),
        d matches Some(v) ==> v == digit_value(c),
{
    if c >= '0' && c <= '9' {
        Some(c as u32 - '0' as u32)
    } else {
        None
    }
}

/// A prefix of a decimal text denotes no more than the whole text.
pub proof fn lemma_decimal_value_grows(s: Seq<char>, k: int)
    requires
        0 <= k <= s.len(),
        forall|i: int| 0 <= i < s.len() ==> is_digit(#[trigger] s[i]),
    ensures
        decimal_value(s.take(k)) <= decimal_value(s),
    decreases s.len() - k,
{
    if k < s.len() {
        lemma_decimal_value_grows(s, k + 1);
        assert(s.take(k + 1).drop_last() == s.take(k));
    } else {
        assert(s.take(k) == s);
    }
}

/// Reads the characters from `start` on as a decimal number of at most 32 bits.
pub(crate) fn decimal_of(chars: &Vec<char>, start: usize) -> (value: Option<u32>)
    requires
        start <= chars.len(),
    ensures
        value == parsed_u32(chars@.skip(start as int)),
{
    let ghost digits = chars@.skip(start as int);
    if chars.len() == start {
        return None;
    }
    let mut acc: u64 = 0;
    let mut i: usize = start;
    while i < chars.len()
        invariant
            start <= i <= chars.len(),
            digits == chars@.skip(start as int),
            forall|j: int| 0 <= j < i - start ==> is_digit(#[trigger] digits[j]),
            acc == decimal_value(digits.take(i - start)),
            acc <= u32::MAX,
        decreases chars.len() - i,
    {
        match digit_of(chars[i]) {
            None => {
                assert(!is_digit(digits[i - start]));
                return None;
            },
            Some(d) => {
                proof {
                    assert(digits.take(i - start + 1).drop_last() == digits.take(i - start));
                }
                acc = acc * 10 + d as u64;
                if acc > u32::MAX as u64 {
                    proof {
                        if is_decimal(digits) {
                            lemma_decimal_value_grows(digits, i - start + 1);
                        }
                    }
                    return None;
                }
                i = i + 1;
            },
        }
    }
    proof {
        assert(digits.take(i - start) == digits);
    }
    Some(acc as u32)
}

/// Reads a decimal number of at most 32 bits.
pub fn parse_u32(text: &str) -> (value: Option<u32>)
    ensures
        value == parsed_u32(text@),
{
    let chars = chars_of(text);
    proof {
        assert(chars@.skip(0) == text@);
    }
    decimal_of(&chars, 0)
}

/// Reading gives back every number that was written: the decimal text of a number is a
/// text of digits that denotes the number, of one digit below ten and of two below a
/// hundred.
pub proof fn lemma_decimal_text(n: nat)
    ensures
        is_decimal(decimal_text(n)),
        decimal_value(decimal_text(n)) == n,
        n <= u32::MAX ==> parsed_u32(decimal_text(n)) == Some(n as u32),
        n < 10 ==> decimal_text(n).len() == 1,
        10 <= n < 100 ==> decimal_text(n).len() == 2,
    decreases n,
{
    if n < 10 {
        let t = decimal_text(n);
        assert(decimal_value(t.drop_last()) == 0);
    } else {
        lemma_decimal_text(n / 10);
        let t = decimal_text(n);
        assert(t.drop_last() == decimal_text(n / 10));
    }
}

/// Writes a number in decimal, without sign or padding.
pub fn u32_to_decimal(n: u32) -> (text: String)
    ensures
        text@ == decimal_text(n as nat),
    decreases n,
{
    if n < 10 {
        let mut text = String::new();
        text.push((48u8 + n as u8) as char);
        text
    } else {
        let mut text = u32_to_decimal(n / 10);
        text.push((48u8 + (n % 10) as u8) as char);
        text
    }
}

/// A character with the Unicode property `White_Space`.
pub open spec fn is_white_space(c: char) -> bool {
    ||| ('\u{9}' <= c && c <= '\u{d}')
    ||| c == ' '
    ||| c == '\u{85}'
    ||| c == '\u{a0}'
    ||| c == '\u{1680}'
    ||| ('\u{2000}' <= c && c <= '\u{200a}')
    ||| c == '\u{2028}'
    ||| c == '\u{2029}'
    ||| c == '\u{202f}'
    ||| c == '\u{205f}'
    ||| c == '\u{3000}'
}

/// The number of white space characters with which a text begins.
pub open spec fn leading_space(s: Seq<char>) -> nat
    decreases s.len(),
{
    if s.len() > 0 && is_white_space(s[0]) {
        1 + leading_space(s.drop_first())
    } else {
        0
    }
}

/// The number of white space characters with which a text ends.
pub open spec fn trailing_space(s: Seq<char>) -> nat
    decreases s.len(),
{
    if s.len() > 0 && is_white_space(s.last()) {
        1 + trailing_space(s.drop_last())
    } else {
        0
    }
}

/// A text without the white space at its beginning and at its end.
pub open spec fn trimmed(s: Seq<char>) -> Seq<char> {
    let rest = s.skip(leading_space(s) as int);
    rest.take(rest.len() - trailing_space(rest))
}

/// Tells whether a character is white space.
pub fn is_space(c: char) -> (space: bool)
    ensures
        space == is_white_space(c),
{
    (c >= '\u{9}' && c <= '\u{d}') || c == ' ' || c == '\u{85}' || c == '\u{a0}' || c == '\u{1680}'
        || (c >= '\u{2000}' && c <= '\u{200a}') || c == '\u{2028}' || c == '\u{2029}' || c
        == '\u{202f}' || c == '\u{205f}' || c == '\u{3000}'
}

/// Copies the characters without the white space at the beginning and at the end.
pub(crate) fn trim_chars(chars: &Vec<char>) -> (out: Vec<char>)
    ensures
        out@ == trimmed(chars@),
{
    let mut start: usize = 0;
    proof {
        assert(chars@.skip(0) == chars@);
    }
    while start < chars.len() && is_space(chars[start])
        invariant
            0 <= start <= chars.len(),
            leading_space(chars@) == start + leading_space(chars@.skip(start as int)),
        decreases chars.len() - start,
    {
        proof {
            assert(chars@.skip(start as int).drop_first() == chars@.skip(start + 1));
        }
        start = start + 1;
    }
    let ghost rest = chars@.skip(start as int);
    let mut end: usize = chars.len();
    proof {
        assert(rest.take((end - start) as int) == rest);
    }
    while end > start && is_space(chars[end - 1])
        invariant
            start <= end <= chars.len(),
            rest == chars@.skip(start as int),
            trailing_space(rest) == (chars.len() - end) + trailing_space(rest.take(end - start)),
        decreases end,
    {
        proof {
            assert(rest.take(end - start).drop_last() == rest.take(end - start - 1));
        }
        end = end - 1;
    }
    let mut out: Vec<char> = Vec::new();
    let mut i: usize = start;
    while i < end
        invariant
            start <= i <= end <= chars.len(),
            out@ == chars@.subrange(start as int, i as int),
        decreases end - i,
    {
        out.push(chars[i]);
        i = i + 1;
    }
    out
}

/// Two, or the number that a text of digits denotes where that is less.
pub open spec fn small_value(s: Seq<char>) -> int {
    if decimal_value(s) < 2 {
        decimal_value(s) as int
    } else {
        2
    }
}

/// Reads the characters from `start` on as a decimal number of any length, and tells
/// whether it is zero, one or more.
pub(crate) fn small_decimal_of(chars: &Vec<char>, start: usize) -> (value: Option<u8>)
    requires
        start <= chars.len(),
    ensures
        value is Some == is_decimal(chars@.skip(start as int)),
        value matches Some(v) ==> v == small_value(chars@.skip(start as int)),
{
    let ghost digits = chars@.skip(start as int);
    if chars.len() == start {
        return None;
    }
    let mut acc: u8 = 0;
    let mut i: usize = start;
    while i < chars.len()
        invariant
            start <= i <= chars.len(),
            digits == chars@.skip(start as int),
            forall|j: int| 0 <= j < i - start ==> is_digit(#[trigger] digits[j]),
            acc == small_value(digits.take(i - start)),
        decreases chars.len() - i,
    {
        match digit_of(chars[i]) {
            None => {
                assert(!is_digit(digits[i - start]));
                return None;
            },
            Some(d) => {
                proof {
                    assert(digits.take(i - start + 1).drop_last() == digits.take(i - start));
                }
                if acc >= 2 || d >= 2 || (acc == 1) {
                    acc = 2;
                } else {
                    acc = d as u8;
                }
                i = i + 1;
            },
        }
    }
    proof {
        assert(digits.take(i - start) == digits);
    }
    Some(acc)
}

} // verus!
