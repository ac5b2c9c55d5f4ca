use async_modem::error::{Field, ImeiError, ParseFailure};
use async_modem::text::{parse_u32, u32_to_decimal};
use async_modem::utils::{
    check_imei, hex_to_bytes, hex_to_utf16, is_valid_imei, iso_8601_from_captures, offset_string,
    parse_quarter_hours, timestamp_to_iso_8601, utf16_to_hex,
};

#[test]
fn imei_with_right_check_digit_is_valid() {
    assert!(is_valid_imei(&String::from("490154203237518")));
    assert!(is_valid_imei(&String::from("356938035643809")));
    assert!(is_valid_imei(&String::from("000000000000000")));
}

#[test]
fn imei_with_wrong_check_digit_is_invalid() {
    for last in ["0", "1", "2", "3", "4", "5", "6", "7", "9"] {
        let imei = format!("49015420323751{}", last);
        assert!(!is_valid_imei(&imei), "{}", imei);
    }
}

#[test]
fn imei_of_wrong_shape_is_invalid() {
    assert!(!is_valid_imei(&String::from("")));
    assert!(!is_valid_imei(&String::from("49015420323751")));
    assert!(!is_valid_imei(&String::from("4901542032375180")));
    assert!(!is_valid_imei(&String::from("49015420323751x")));
    assert!(!is_valid_imei(&String::from("4901542032x7518")));
    assert!(!is_valid_imei(&String::from("+90154203237518")));
    assert!(!is_valid_imei(&String::from("49015420323751\u{0668}")));
}

#[test]
fn imei_check_names_the_fault() {
    assert_eq!(check_imei("490154203237518"), Ok(()));
    assert_eq!(check_imei("490154203237510"), Err(ImeiError::WrongCheckDigit));
    assert_eq!(check_imei(""), Err(ImeiError::WrongLength));
    assert_eq!(check_imei("4901542032375188"), Err(ImeiError::WrongLength));
    assert_eq!(check_imei("a90154203237518"), Err(ImeiError::NotADigit));
    assert_eq!(check_imei("49015420323751 "), Err(ImeiError::NotADigit));
    assert_eq!(check_imei("abcdefghijklmno"), Err(ImeiError::NotADigit));
}

#[test]
fn hex_decodes_pairs_of_digits() {
    assert_eq!(hex_to_utf16("48656C6C6F").unwrap(), "Hello");
    assert_eq!(hex_to_utf16("48656c6c6f").unwrap(), "Hello");
    assert_eq!(hex_to_utf16("").unwrap(), "");
    assert_eq!(hex_to_utf16("636166E9").unwrap(), "caf\u{e9}");
    assert_eq!(hex_to_utf16("0041").unwrap(), "\u{0}A");
    assert_eq!(hex_to_bytes("00FF10"), Some(vec![0x00, 0xFF, 0x10]));
}

#[test]
fn hex_refuses_what_is_no_hex() {
    assert_eq!(hex_to_utf16("4"), Err(ParseFailure::InvalidHex));
    assert_eq!(hex_to_utf16("4G"), Err(ParseFailure::InvalidHex));
    assert_eq!(hex_to_utf16("+4"), Err(ParseFailure::InvalidHex));
    assert_eq!(hex_to_utf16("\u{e9}"), Err(ParseFailure::InvalidHex));
    assert_eq!(hex_to_utf16("41 "), Err(ParseFailure::InvalidHex));
    assert_eq!(hex_to_bytes("123"), None);
    assert_eq!(hex_to_bytes("zz"), None);
}

#[test]
fn hex_encodes_each_character_as_two_digits() {
    assert_eq!(utf16_to_hex("Hello"), Some(String::from("48656C6C6F")));
    assert_eq!(utf16_to_hex(""), Some(String::new()));
    assert_eq!(utf16_to_hex("\u{0}\u{ff}"), Some(String::from("00FF")));
    assert_eq!(utf16_to_hex("\u{100}"), None);
    assert_eq!(utf16_to_hex("ok \u{1F600}"), None);
}

#[test]
fn hex_round_trip() {
    for text in ["", "+15551234567", "Hello, world!", "caf\u{e9} \u{a3}5", "\r\n\t\u{0}"] {
        let hex = utf16_to_hex(text).unwrap();
        assert_eq!(hex_to_utf16(&hex).unwrap(), text);
    }
    let mut all = String::new();
    for n in 0u32..256 {
        all.push(char::from_u32(n).unwrap());
    }
    let hex = utf16_to_hex(&all).unwrap();
    assert_eq!(hex.len(), 512);
    assert_eq!(hex_to_utf16(&hex).unwrap(), all);
}

#[test]
fn decimal_numbers() {
    assert_eq!(parse_u32("0"), Some(0));
    assert_eq!(parse_u32("007"), Some(7));
    assert_eq!(parse_u32("4294967295"), Some(4294967295));
    assert_eq!(parse_u32("4294967296"), None);
    assert_eq!(parse_u32("99999999999999999999"), None);
    assert_eq!(parse_u32(""), None);
    assert_eq!(parse_u32("+1"), None);
    assert_eq!(parse_u32("1a"), None);
    assert_eq!(parse_u32("\u{0661}"), None);
    assert_eq!(u32_to_decimal(0), "0");
    assert_eq!(u32_to_decimal(9), "9");
    assert_eq!(u32_to_decimal(10), "10");
    assert_eq!(u32_to_decimal(4294967295), "4294967295");
}

#[test]
fn offset_of_quarter_hours() {
    assert_eq!(offset_string(0), "+00:00");
    assert_eq!(offset_string(-20), "-05:00");
    assert_eq!(offset_string(22), "+05:30");
    assert_eq!(offset_string(23), "+05:45");
    assert_eq!(offset_string(-1), "-00:15");
    assert_eq!(offset_string(48), "+12:00");
    assert_eq!(offset_string(-48), "-12:00");
    assert_eq!(offset_string(999), "+249:45");
    assert_eq!(offset_string(i32::MIN), "-536870912:00");
}

#[test]
fn offset_recombines_to_quarter_hours() {
    for quarters in -48i32..=48 {
        let offset = offset_string(quarters);
        assert_eq!(offset.len(), 6);
        let hours: i32 = offset[1..3].parse().unwrap();
        let minutes: i32 = offset[4..6].parse().unwrap();
        let size = hours * 4 + minutes / 15;
        assert_eq!(minutes % 15, 0);
        let sign = if &offset[0..1] == "-" { -1 } else { 1 };
        assert_eq!(sign * size, quarters);
    }
}

#[test]
fn quarter_hours_of_time_zone_token() {
    assert_eq!(parse_quarter_hours("-20"), Some(-20));
    assert_eq!(parse_quarter_hours("+08"), Some(8));
    assert_eq!(parse_quarter_hours("+0"), Some(0));
    assert_eq!(parse_quarter_hours("-0"), Some(0));
    assert_eq!(parse_quarter_hours("+2147483647"), Some(2147483647));
    assert_eq!(parse_quarter_hours("-2147483647"), Some(-2147483647));
    assert_eq!(parse_quarter_hours("+2147483648"), None);
    assert_eq!(parse_quarter_hours("-"), None);
    assert_eq!(parse_quarter_hours("+"), None);
    assert_eq!(parse_quarter_hours(""), None);
    assert_eq!(parse_quarter_hours("20"), None);
    assert_eq!(parse_quarter_hours("-2x"), None);
}

#[test]
fn timestamp_is_converted() {
    assert_eq!(
        timestamp_to_iso_8601("25/01/02,03:04:05-20").unwrap(),
        "2025-01-02T03:04:05-05:00"
    );
    assert_eq!(
        timestamp_to_iso_8601("24/12/31,23:59:59+08").unwrap(),
        "2024-12-31T23:59:59+02:00"
    );
    assert_eq!(
        timestamp_to_iso_8601("23/06/15,12:00:00+23").unwrap(),
        "2023-06-15T12:00:00+05:45"
    );
    assert_eq!(
        timestamp_to_iso_8601("\"99/11/30,00:00:00-1\"").unwrap(),
        "2099-11-30T00:00:00-00:15"
    );
}

#[test]
fn timestamp_failures() {
    assert_eq!(timestamp_to_iso_8601(""), Err(ParseFailure::NoMatch));
    assert_eq!(timestamp_to_iso_8601("25/01/02 03:04:05-20"), Err(ParseFailure::NoMatch));
    assert_eq!(
        timestamp_to_iso_8601("25/01/02,03:04:05"),
        Err(ParseFailure::MissingField(Field::TimeZone))
    );
    assert_eq!(timestamp_to_iso_8601("25/01/02,03:04:05-"), Err(ParseFailure::InvalidNumber));
    assert_eq!(timestamp_to_iso_8601("25/01/02,03:04:05+"), Err(ParseFailure::InvalidNumber));
}

#[test]
fn timestamp_from_groups() {
    let text = |s: &str| Some(String::from(s));
    let mut groups = vec![
        text("25/01/02,03:04:05-20"),
        text("25"),
        text("01"),
        text("02"),
        text("03"),
        text("04"),
        text("05"),
        text("-20"),
    ];
    assert_eq!(iso_8601_from_captures(&groups).unwrap(), "2025-01-02T03:04:05-05:00");
    groups[7] = text("20");
    assert_eq!(iso_8601_from_captures(&groups), Err(ParseFailure::InvalidNumber));
    groups[7] = None;
    assert_eq!(
        iso_8601_from_captures(&groups),
        Err(ParseFailure::MissingField(Field::TimeZone))
    );
    groups[6] = None;
    assert_eq!(iso_8601_from_captures(&groups), Err(ParseFailure::MissingField(Field::Second)));
    groups[5] = None;
    assert_eq!(iso_8601_from_captures(&groups), Err(ParseFailure::MissingField(Field::Minute)));
    groups[4] = None;
    assert_eq!(iso_8601_from_captures(&groups), Err(ParseFailure::MissingField(Field::Hour)));
    groups[2] = None;
    assert_eq!(iso_8601_from_captures(&groups), Err(ParseFailure::MissingField(Field::Month)));
    groups[1] = None;
    assert_eq!(iso_8601_from_captures(&groups), Err(ParseFailure::MissingField(Field::Year)));
    let short = vec![text("x"), text("25"), text("01")];
    assert_eq!(iso_8601_from_captures(&short), Err(ParseFailure::MissingField(Field::Day)));
    let none: Vec<Option<String>> = Vec::new();
    assert_eq!(iso_8601_from_captures(&none), Err(ParseFailure::MissingField(Field::Year)));
}

fn luhn_total_is_multiple_of_ten(digits: &[u32]) -> bool {
    let mut total = 0;
    for (place, digit) in digits.iter().rev().enumerate() {
        let mut term = *digit;
        if place % 2 == 1 {
            term *= 2;
            if term > 9 {
                term -= 9;
            }
        }
        total += term;
    }
    total % 10 == 0
}

#[test]
fn imei_check_agrees_with_the_luhn_formula() {
    let mut state: u64 = 0x2545F4914F6CDD1D;
    let mut valid = 0;
    for _ in 0..5000 {
        let mut digits: Vec<u32> = Vec::new();
        for _ in 0..15 {
            state = state.wrapping_mul(6364136223846793005).wrapping_add(1442695040888963407);
            digits.push(((state >> 33) % 10) as u32);
        }
        let imei: String = digits.iter().map(|d| char::from_digit(*d, 10).unwrap()).collect();
        let expected = luhn_total_is_multiple_of_ten(&digits);
        assert_eq!(is_valid_imei(&imei), expected, "{}", imei);
        if expected {
            valid += 1;
        }
        let mut fixed = None;
        for last in 0..10 {
            digits[14] = last;
            let candidate: String =
                digits.iter().map(|d| char::from_digit(*d, 10).unwrap()).collect();
            if is_valid_imei(&candidate) {
                assert_eq!(fixed, None, "{}", candidate);
                fixed = Some(last);
            }
        }
        assert!(fixed.is_some());
    }
    assert!(valid > 0);
}
