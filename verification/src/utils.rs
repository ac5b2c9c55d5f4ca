//! The codecs: the IMEI check, hex code units, and the modem's timestamps.

use vstd::prelude::*;
use crate::error::{text_result, Field, ImeiError, ParseFailure};
use crate::pattern::{first_match, group_text, pattern_captures, required};
use crate::text::{
    chars_of, decimal_of, decimal_text, decimal_value, digit_char, digit_of, digit_value,
    is_digit, lemma_char_range, lemma_decimal_text, parsed_u32, u32_to_decimal,
};

verus! {

/// What one digit adds to the Luhn sum: every second digit, from the second on, counts
/// double, less nine where the double has two digits.
pub open spec fn luhn_term(position: int, digit: int) -> int {
    if position % 2 == 1 {
        if 2 * digit >= 10 {
            2 * digit - 9
        } else {
            2 * digit
        }
    } else {
        digit
    }
}

/// The Luhn sum of a text of digits, the first digit at position 0.
pub open spec fn luhn_sum(digits: Seq<char>) -> int
    decreases digits.len(),
{
    if digits.len() == 0 {
        0
    } else {
        luhn_sum(digits.drop_last()) + luhn_term(digits.len() - 1, digit_value(digits.last()))
    }
}

/// The digit that makes the Luhn sum of the digits before it a multiple of ten.
pub open spec fn luhn_check_digit(payload: Seq<char>) -> int {
    (10 - luhn_sum(payload) % 10) % 10
}

/// A text of exactly fifteen decimal digits.
pub open spec fn is_imei_text(s: Seq<char>) -> bool {
    s.len() == 15 && forall|i: int| 0 <= i < 15 ==> is_digit(#[trigger] s[i])
}

/// An IMEI is valid where it has fifteen digits and the last is the Luhn check digit of the
/// fourteen before it.
pub open spec fn imei_is_valid(s: Seq<char>) -> bool {
    is_imei_text(s) && digit_value(s[14]) == luhn_check_digit(s.take(14))
}

/// What the check of an IMEI finds: the first of wrong length, a character that is no
/// digit, and a wrong check digit; or nothing.
pub open spec fn imei_checked(s: Seq<char>) -> Result<(), ImeiError> {
    if s.len() != 15 {
        Err(ImeiError::WrongLength)
    } else if !is_imei_text(s) {
        Err(ImeiError::NotADigit)
    } else if digit_value(s[14]) != luhn_check_digit(s.take(14)) {
        Err(ImeiError::WrongCheckDigit)
    } else {
        Ok(())
    }
}

/// Checks a text as an IMEI, and says what is wrong with one that is not valid.
pub fn check_imei(imei: &str) -> (checked: Result<(), ImeiError>)
    ensures
        checked == imei_checked(imei@),
        checked is Ok == imei_is_valid(imei@),
{
    let numbers = chars_of(imei);
    if numbers.len() != 15 {
        return Err(ImeiError::WrongLength);
    }
    let ghost payload = numbers@.take(14);
    let mut sum: u32 = 0;
    let mut index: usize = 0;
    while index < 14
        invariant
            0 <= index <= 14,
            numbers@ == imei@,
            numbers@.len() == 15,
            payload == numbers@.take(14),
            forall|j: int| 0 <= j < index ==> is_digit(#[trigger] numbers@[j]),
            sum == luhn_sum(payload.take(index as int)),
            sum <= 9 * index,
        decreases 14 - index,
    {
        let number = match digit_of(numbers[index]) {
            Some(number) => number,
            None => {
                return Err(ImeiError::NotADigit);
            },
        };
        proof {
            assert(payload.take(index + 1).drop_last() == payload.take(index as int));
        }
        if index % 2 != 0 {
            let mut new_number = number * 2;
            if new_number >= 10 {
                new_number -= 9
            }
            sum += new_number
        } else {
            sum += number
        }
        index += 1;
    }
    proof {
        assert(payload.take(14) == payload);
    }
    let check_digit = match digit_of(numbers[14]) {
        Some(check_digit) => check_digit,
        None => {
            return Err(ImeiError::NotADigit);
        },
    };
    // Run luhn algorithm to calculate the check digit
    if check_digit == (10 - (sum % 10)) % 10 {
        Ok(())
    } else {
        Err(ImeiError::WrongCheckDigit)
    }
}

/// Tells whether a text is a valid IMEI: fifteen digits, the last of them the Luhn check
/// digit of the fourteen before it. A text of another length, or one that holds anything
/// but decimal digits, is not valid.
pub fn is_valid_imei(intended_imei: &String) -> (valid: bool)
    ensures
        valid == imei_is_valid(intended_imei@),
{
    check_imei(intended_imei.as_str()).is_ok()
}

/// Every fourteen digits have their check digit: the Luhn check digit is a digit, and the
/// fourteen digits followed by it are a valid IMEI.
pub proof fn lemma_check_digit_completes(payload: Seq<char>)
    requires
        payload.len() == 14,
        forall|i: int| 0 <= i < 14 ==> is_digit(#[trigger] payload[i]),
    ensures
        0 <= luhn_check_digit(payload) <= 9,
        imei_is_valid(payload.push(digit_char(luhn_check_digit(payload)))),
{
    let imei = payload.push(digit_char(luhn_check_digit(payload)));
    assert(imei.take(14) == payload);
    assert forall|i: int| 0 <= i < 15 implies is_digit(#[trigger] imei[i]) by {
        if i < 14 {
            assert(imei[i] == payload[i]);
        }
    }
}

/// The number that a hex digit of either case stands for.
pub open spec fn hex_digit_value(c: char) -> Option<int> {
    if '0' <= c && c <= '9' {
        Some(c as int - 48)
    } else if 'a' <= c && c <= 'f' {
        Some(c as int - 87)
    } else if 'A' <= c && c <= 'F' {
        Some(c as int - 55)
    } else {
        None
    }
}

/// A text of hex digits in pairs.
pub open spec fn is_hex_text(s: Seq<char>) -> bool {
    s.len() % 2 == 0 && forall|i: int| 0 <= i < s.len() ==> hex_digit_value(#[trigger] s[i]) is Some
}

/// The code unit that the pair of hex digits at place `i` denotes.
pub open spec fn hex_unit(s: Seq<char>, i: int) -> u16 {
    (16 * hex_digit_value(s[2 * i])->0 + hex_digit_value(s[2 * i + 1])->0) as u16
}

/// The code units of a hex text: one for each pair of digits, the first digit counting
/// sixteen times. A text of odd length, or with a character that is no hex digit, has none.
pub open spec fn hex_units(s: Seq<char>) -> Option<Seq<u16>> {
    if is_hex_text(s) {
        Some(Seq::new((s.len() / 2) as nat, |i: int| hex_unit(s, i)))
    } else {
        None
    }
}

/// The text that a hex text encodes: the characters whose numbers are its code units.
pub open spec fn hex_decoded(s: Seq<char>) -> Option<Seq<char>> {
    match hex_units(s) {
        Some(units) => Some(Seq::new(units.len(), |i: int| units[i] as char)),
        None => None,
    }
}

/// The value of one hex digit.
fn hex_digit_of(c: char) -> (value: Option<u16>)
    ensures
        value is Some == hex_digit_value(c) is Some,
        value matches Some(v) ==> v == hex_digit_value(c)->0 && v < 16,
{
    if c >= '0' && c <= '9' {
        Some((c as u32 - 48) as u16)
    } else if c >= 'a' && c <= 'f' {
        Some((c as u32 - 87) as u16)
    } else if c >= 'A' && c <= 'F' {
        Some((c as u32 - 55) as u16)
    } else {
        None
    }
}

/// Convert a hex string to u16 code units
pub fn hex_to_bytes(s: &str) -> (units: Option<Vec<u16>>)
    ensures
        units is Some == hex_units(s@) is Some,
        units matches Some(v) ==> hex_units(s@) == Some(v@),
{
    let chars = chars_of(s);
    if chars.len() % 2 != 0 {
        return None;
    }
    let mut units: Vec<u16> = Vec::new();
    let mut i: usize = 0;
    while i < chars.len()
        invariant
            0 <= i <= chars.len(),
            i % 2 == 0,
            chars.len() % 2 == 0,
            chars@ == s@,
            forall|j: int| 0 <= j < i ==> hex_digit_value(#[trigger] chars@[j]) is Some,
            units@.len() == i / 2,
            forall|k: int| 0 <= k < units@.len() ==> #[trigger] units@[k] == hex_unit(s@, k),
        decreases chars.len() - i,
    {
        let high = match hex_digit_of(chars[i]) {
            Some(high) => high,
            None => {
                return None;
            },
        };
        let low = match hex_digit_of(chars[i + 1]) {
            Some(low) => low,
            None => {
                return None;
            },
        };
        units.push(16 * high + low);
        i = i + 2;
    }
    Some(units)
}

/// Decodes a text of hex digit pairs, each pair one code unit, into the text that the code
/// units spell.
pub fn hex_to_utf16(hex: &str) -> (text: Result<String, ParseFailure>)
    ensures
        text is Ok == hex_decoded(hex@) is Some,
        text matches Ok(t) ==> hex_decoded(hex@) == Some(t@),
        text matches Err(e) ==> e == ParseFailure::InvalidHex,
{
    if let Some(hex_vec) = hex_to_bytes(hex) {
        let mut text = String::new();
        let mut i: usize = 0;
        while i < hex_vec.len()
            invariant
                0 <= i <= hex_vec.len(),
                hex_units(hex@) == Some(hex_vec@),
                text@.len() == i,
                forall|k: int| 0 <= k < i ==> #[trigger] text@[k] == hex_vec@[k] as char,
            decreases hex_vec.len() - i,
        {
            text.push(hex_vec[i] as u8 as char);
            i = i + 1;
        }
        Ok(text)
    } else {
        Err(ParseFailure::InvalidHex)
    }
}

/// The upper-case hex digit that stands for `v`, for `v` below sixteen.
pub open spec fn hex_digit_char(v: int) -> char {
    if v < 10 {
        (48 + v) as char
    } else {
        (55 + v) as char
    }
}

/// A text that two hex digits for each character can hold: every character's number is
/// below 256.
pub open spec fn is_hex_encodable(text: Seq<char>) -> bool {
    forall|i: int| 0 <= i < text.len() ==> ((#[trigger] text[i]) as int) < 256
}

/// The hex text of a text: for each character the two upper-case hex digits of its number,
/// the higher first.
pub open spec fn hex_encoded(text: Seq<char>) -> Seq<char> {
    Seq::new(
        2 * text.len(),
        |i: int|
            if i % 2 == 0 {
                hex_digit_char(text[i / 2] as int / 16)
            } else {
                hex_digit_char(text[i / 2] as int % 16)
            },
    )
}

/// The upper-case hex digit of a number below sixteen.
fn hex_digit(v: u8) -> (c: char)
    requires
        v < 16,
    ensures
        c == hex_digit_char(v as int),
{
    if v < 10 {
        (48u8 + v) as char
    } else {
        (55u8 + v) as char
    }
}

/// Encodes a text as hex digit pairs, one pair for each character. A text with a character
/// whose number does not fit two hex digits has no encoding.
pub fn utf16_to_hex(text: &str) -> (hex: Option<String>)
    ensures
        hex is Some == is_hex_encodable(text@),
        hex matches Some(h) ==> h@ == hex_encoded(text@),
{
    let chars = chars_of(text);
    let mut hex = String::new();
    let mut i: usize = 0;
    while i < chars.len()
        invariant
            0 <= i <= chars.len(),
            chars@ == text@,
            forall|j: int| 0 <= j < i ==> ((#[trigger] chars@[j]) as int) < 256,
            hex@.len() == 2 * i,
            forall|k: int| 0 <= k < 2 * i ==> #[trigger] hex@[k] == hex_encoded(text@)[k],
        decreases chars.len() - i,
    {
        proof {
            lemma_char_range(chars@[i as int]);
        }
        let number = chars[i] as u32;
        if number >= 256 {
            return None;
        }
        hex.push(hex_digit((number / 16) as u8));
        hex.push(hex_digit((number % 16) as u8));
        i = i + 1;
    }
    Some(hex)
}

/// Decoding gives back every text that was encoded: for each text whose characters fit two
/// hex digits, the hex text of the text decodes to the text.
pub proof fn lemma_hex_round_trip(text: Seq<char>)
    requires
        is_hex_encodable(text),
    ensures
        hex_decoded(hex_encoded(text)) == Some(text),
{
    let hex = hex_encoded(text);
    assert forall|i: int| 0 <= i < hex.len() implies hex_digit_value(#[trigger] hex[i]) is Some by {
        lemma_char_range(text[i / 2]);
    }
    let decoded = hex_decoded(hex)->0;
    assert forall|i: int| 0 <= i < text.len() implies decoded[i] == text[i] by {
        lemma_char_range(text[i]);
    }
}

/// The pattern of the modem's date and time: year, month, day, hour, minute and second of
/// two digits each (groups 1 to 6), then the time zone as a sign and up to three digits
/// (group 7).
pub const TIMESTAMP_PATTERN: &'static str =
    r"(\d{2})/(\d{2})/(\d{2}),(\d{2}):(\d{2}):(\d{2})((?:-|\+)\d{0,3})?";

/// The count of quarter hours that a time zone token denotes: a sign, then a decimal number
/// that fits a signed 32-bit count.
pub open spec fn quarter_hours(token: Seq<char>) -> Option<int> {
    if token.len() >= 1 && (token[0] == '-' || token[0] == '+') {
        match parsed_u32(token.skip(1)) {
            Some(size) => if size <= i32::MAX {
                Some(
                    if token[0] == '-' {
                        -(size as int)
                    } else {
                        size as int
                    },
                )
            } else {
                None
            },
            None => None,
        }
    } else {
        None
    }
}

/// A number in decimal, with a leading zero where it has one digit only.
pub open spec fn two_digits(n: nat) -> Seq<char> {
    if n < 10 {
        seq!['0', digit_char(n as int)]
    } else {
        decimal_text(n)
    }
}

/// The offset from UTC that a count of quarter hours stands for, written as a sign, the
/// whole hours, a colon and the minutes that are left: `±HH:MM`.
pub open spec fn offset_text(quarters: int) -> Seq<char> {
    let size = if quarters < 0 {
        -quarters
    } else {
        quarters
    };
    seq![if quarters < 0 {
        '-'
    } else {
        '+'
    }] + two_digits((size / 4) as nat) + seq![':'] + two_digits(((size % 4) * 15) as nat)
}

/// The count of quarter hours that an offset of the form `±HH:MM` stands for.
pub open spec fn offset_quarter_hours(offset: Seq<char>) -> int {
    let hours = decimal_value(offset.subrange(1, 3));
    let minutes = decimal_value(offset.subrange(4, 6));
    let size = (hours * 4 + minutes / 15) as int;
    if offset[0] == '-' {
        -size
    } else {
        size
    }
}

/// The date and time with explicit offset that the groups of a matched timestamp spell:
/// `20YY-MM-DDTHH:MM:SS±HH:MM`. The first part that is missing, in the order of the
/// groups, gives the error; so does a time zone that is no count of quarter hours.
pub open spec fn iso_8601_text(groups: Seq<Option<Seq<char>>>) -> Result<Seq<char>, ParseFailure> {
    if group_text(groups, 1) is None {
        Err(ParseFailure::MissingField(Field::Year))
    } else if group_text(groups, 2) is None {
        Err(ParseFailure::MissingField(Field::Month))
    } else if group_text(groups, 3) is None {
        Err(ParseFailure::MissingField(Field::Day))
    } else if group_text(groups, 4) is None {
        Err(ParseFailure::MissingField(Field::Hour))
    } else if group_text(groups, 5) is None {
        Err(ParseFailure::MissingField(Field::Minute))
    } else if group_text(groups, 6) is None {
        Err(ParseFailure::MissingField(Field::Second))
    } else if group_text(groups, 7) is None {
        Err(ParseFailure::MissingField(Field::TimeZone))
    } else {
        match quarter_hours(group_text(groups, 7)->0) {
            None => Err(ParseFailure::InvalidNumber),
            Some(quarters) => Ok(
                "20"@ + group_text(groups, 1)->0 + "-"@ + group_text(groups, 2)->0 + "-"@
                    + group_text(groups, 3)->0 + "T"@ + group_text(groups, 4)->0 + ":"@
                    + group_text(groups, 5)->0 + ":"@ + group_text(groups, 6)->0 + offset_text(
                    quarters,
                ),
            ),
        }
    }
}

/// The date and time with explicit offset of a text that holds a modem timestamp.
pub open spec fn timestamp_iso_8601(timestamp: Seq<char>) -> Result<Seq<char>, ParseFailure> {
    match pattern_captures(TIMESTAMP_PATTERN@, timestamp) {
        Err(e) => Err(e),
        Ok(None) => Err(ParseFailure::NoMatch),
        Ok(Some(groups)) => iso_8601_text(groups),
    }
}

/// Reads a time zone token as a count of quarter hours.
pub fn parse_quarter_hours(token: &str) -> (quarters: Option<i32>)
    ensures
        quarters is Some == quarter_hours(token@) is Some,
        quarters matches Some(q) ==> quarter_hours(token@) == Some(q as int),
{
    let chars = chars_of(token);
    if chars.len() == 0 {
        return None;
    }
    let sign = chars[0];
    if sign != '-' && sign != '+' {
        return None;
    }
    match decimal_of(&chars, 1) {
        Some(size) => {
            if size > i32::MAX as u32 {
                None
            } else if sign == '-' {
                Some(-(size as i32))
            } else {
                Some(size as i32)
            }
        },
        None => None,
    }
}

/// Appends a number in decimal, with a leading zero where it has one digit only.
fn push_two_digits(text: &mut String, n: u32)
    ensures
        final(text)@ == old(text)@ + two_digits(n as nat),
{
    if n < 10 {
        text.push('0');
    }
    let digits = u32_to_decimal(n);
    text.append(digits.as_str());
}

/// Writes a count of quarter hours as an offset from UTC, `±HH:MM`.
pub fn offset_string(quarters: i32) -> (offset: String)
    ensures
        offset@ == offset_text(quarters as int),
{
    let size: u32 = if quarters < 0 {
        (-(quarters as i64)) as u32
    } else {
        quarters as u32
    };
    let mut offset = String::new();
    if quarters < 0 {
        offset.push('-');
    } else {
        offset.push('+');
    }
    push_two_digits(&mut offset, size / 4);
    offset.push(':');
    push_two_digits(&mut offset, (size % 4) * 15);
    offset
}

/// Spells the groups of a matched timestamp as a date and time with explicit offset.
pub fn iso_8601_from_captures(groups: &Vec<Option<String>>) -> (stamp: Result<String, ParseFailure>)
    ensures
        text_result(stamp) == iso_8601_text(groups.deep_view()),
{
    let year = match required(groups, 1, Field::Year) {
        Ok(year) => year,
        Err(e) => {
            return Err(e);
        },
    };
    let month = match required(groups, 2, Field::Month) {
        Ok(month) => month,
        Err(e) => {
            return Err(e);
        },
    };
    let day = match required(groups, 3, Field::Day) {
        Ok(day) => day,
        Err(e) => {
            return Err(e);
        },
    };
    let hour = match required(groups, 4, Field::Hour) {
        Ok(hour) => hour,
        Err(e) => {
            return Err(e);
        },
    };
    let min = match required(groups, 5, Field::Minute) {
        Ok(min) => min,
        Err(e) => {
            return Err(e);
        },
    };
    let sec = match required(groups, 6, Field::Second) {
        Ok(sec) => sec,
        Err(e) => {
            return Err(e);
        },
    };
    let zone = match required(groups, 7, Field::TimeZone) {
        Ok(zone) => zone,
        Err(e) => {
            return Err(e);
        },
    };
    let quarters = match parse_quarter_hours(zone) {
        Some(quarters) => quarters,
        None => {
            return Err(ParseFailure::InvalidNumber);
        },
    };
    let converted_tz = offset_string(quarters);

    // The modem gives the year without its century
    let mut converted_stamp = String::from_str("20");
    converted_stamp.append(year);
    converted_stamp.append("-");
    converted_stamp.append(month);
    converted_stamp.append("-");
    converted_stamp.append(day);
    converted_stamp.append("T");
    converted_stamp.append(hour);
    converted_stamp.append(":");
    converted_stamp.append(min);
    converted_stamp.append(":");
    converted_stamp.append(sec);
    converted_stamp.append(converted_tz.as_str());
    Ok(converted_stamp)
}

/// Converts the GSM given timestamp format to ISO 8601
pub fn timestamp_to_iso_8601(timestamp: &str) -> (stamp: Result<String, ParseFailure>)
    ensures
        text_result(stamp) == timestamp_iso_8601(timestamp@),
{
    match first_match(TIMESTAMP_PATTERN, timestamp) {
        Err(e) => Err(e),
        Ok(None) => Err(ParseFailure::NoMatch),
        Ok(Some(captures)) => iso_8601_from_captures(&captures),
    }
}

/// The offset of a timestamp keeps its count of quarter hours: for every count from -48 to
/// 48, hours and minutes of the offset text, taken together again under its sign, give the
/// count.
pub proof fn lemma_offset_keeps_quarter_hours(quarters: int)
    requires
        -48 <= quarters <= 48,
    ensures
        offset_text(quarters).len() == 6,
        offset_text(quarters)[3] == ':',
        offset_quarter_hours(offset_text(quarters)) == quarters,
{
    let size = if quarters < 0 {
        -quarters
    } else {
        quarters
    };
    let hours = (size / 4) as nat;
    let minutes = ((size % 4) * 15) as nat;
    lemma_two_digits(hours);
    lemma_two_digits(minutes);
    let offset = offset_text(quarters);
    assert(offset.subrange(1, 3) =~= two_digits(hours));
    assert(offset.subrange(4, 6) =~= two_digits(minutes));
}

/// The converter keeps the time zone: for every matched timestamp whose time zone is a
/// count of quarter hours from -48 to 48, the converted text ends in an offset whose hours
/// and minutes, taken together again under its sign, give that count.
pub proof fn lemma_timestamp_keeps_quarter_hours(groups: Seq<Option<Seq<char>>>, quarters: int)
    requires
        forall|i: int| 1 <= i <= 7 ==> (#[trigger] group_text(groups, i)) is Some,
        quarter_hours(group_text(groups, 7)->0) == Some(quarters),
        -48 <= quarters <= 48,
    ensures
        iso_8601_text(groups) matches Ok(stamp) && stamp.len() >= 6 && stamp.skip(stamp.len() - 6)
            == offset_text(quarters) && offset_quarter_hours(stamp.skip(stamp.len() - 6))
            == quarters,
{
    lemma_offset_keeps_quarter_hours(quarters);
    let stamp = iso_8601_text(groups)->Ok_0;
    assert(stamp.skip(stamp.len() - 6) =~= offset_text(quarters));
}

/// Two digits denote the number they were written from.
proof fn lemma_two_digits(n: nat)
    requires
        n < 100,
    ensures
        two_digits(n).len() == 2,
        decimal_value(two_digits(n)) == n,
{
    lemma_decimal_text(n);
    if n < 10 {
        let t = two_digits(n);
        assert(decimal_value(t.drop_last().drop_last()) == 0);
        assert(decimal_value(t.drop_last()) == 0);
    }
}

} // verus!
