use async_modem::commands::{
    capture_first_group, configure_commands, list_sms_command, parse_auto_timezone, parse_imei,
    parse_signal_quality, parse_sms_format, parse_switch, parse_u8, read_sms_command,
    send_sms_command, send_sms_payload, send_sms_terminators, set_auto_timezone_command,
    set_imei_command, set_sms_format_command, signal_quality_from_captures,
    GET_AUTO_TIMEZONE_COMMAND, GET_IMEI_COMMAND, GET_SIGNAL_QUALITY_COMMAND,
    GET_SMS_FORMAT_COMMAND,
};
use async_modem::constants::{SmsFormat, SmsStatus};
use async_modem::error::{Field, ImeiError, ParseFailure};
use async_modem::gsm_modem::{
    decode_error, error_from_captures, Configuration, Correlator, ModemOutcome,
};
use async_modem::pattern::{all_matches, first_match, group, has_match};

#[test]
fn commands_are_spelled() {
    assert_eq!(
        configure_commands(),
        vec!["ATZ\r", "ATE0\r", "AT+CMEE=1\r", "AT+CMGF=1\r", "AT+CSCS=\"UCS2\"\r"]
    );
    assert_eq!(send_sms_command("+15551234567"), "AT+CMGS=\"+15551234567\"\r");
    assert_eq!(send_sms_payload("hello\nthere"), "hello\nthere\u{1a}");
    assert_eq!(GET_IMEI_COMMAND, "AT+SIMEI?\r");
    assert_eq!(GET_SMS_FORMAT_COMMAND, "AT+CMGF?\r");
    assert_eq!(GET_SIGNAL_QUALITY_COMMAND, "AT+CSQ\r");
    assert_eq!(GET_AUTO_TIMEZONE_COMMAND, "AT+CTZU?\r");
    assert_eq!(set_sms_format_command(SmsFormat::Text), "AT+CMGF=1\r");
    assert_eq!(set_sms_format_command(SmsFormat::ProtocolDataUnit), "AT+CMGF=0\r");
    assert_eq!(set_auto_timezone_command(true), "AT+CTZU=1\r");
    assert_eq!(set_auto_timezone_command(false), "AT+CTZU=0\r");
    assert_eq!(read_sms_command(0), "AT+CMGR=0\r");
    assert_eq!(read_sms_command(56), "AT+CMGR=56\r");
    assert_eq!(read_sms_command(u32::MAX), "AT+CMGR=4294967295\r");
    assert_eq!(list_sms_command(SmsStatus::All), "AT+CMGL=\"ALL\"\r");
    assert_eq!(list_sms_command(SmsStatus::ReceivedUnread), "AT+CMGL=\"REC UNREAD\"\r");
}

#[test]
fn imei_is_checked_before_it_is_sent() {
    assert_eq!(
        set_imei_command("490154203237518"),
        Ok(String::from("AT+SIMEI=490154203237518\r"))
    );
    assert_eq!(set_imei_command("490154203237519"), Err(ImeiError::WrongCheckDigit));
    assert_eq!(set_imei_command("49015420323751"), Err(ImeiError::WrongLength));
    assert_eq!(set_imei_command("49015420323751\r"), Err(ImeiError::NotADigit));
    assert_eq!(set_imei_command("AT+CMGD=0,4\r"), Err(ImeiError::WrongLength));
}

#[test]
fn sending_a_message_waits_for_the_prompt() {
    let (success, error) = send_sms_terminators();
    assert_eq!(success, r"\r\n> ");
    assert_eq!(error, r"(\r\nERROR\r\n)|(\r\n\+(CM(?:E|S)) ERROR: (\d{1,3})\r\n)");
    let mut correlator = Correlator::new();
    assert!(correlator.begin(Some((success, error))).is_ok());
    assert!(matches!(correlator.deliver("\r\nOK\r\n"), Ok(None)));
    match correlator.deliver("\r\n> ") {
        Ok(Some(text)) => assert_eq!(text, "\r\nOK\r\n\r\n> "),
        other => panic!("unexpected outcome: {:?}", other),
    }
}

#[test]
fn imei_reply() {
    assert_eq!(
        parse_imei("\r\n+SIMEI: 490154203237518\r\n\r\nOK\r\n"),
        Ok(String::from("490154203237518"))
    );
    assert_eq!(parse_imei("\r\n+SIMEI: 49015420323751\r\n\r\nOK\r\n"), Err(ParseFailure::NoMatch));
    assert_eq!(parse_imei("\r\nOK\r\n"), Err(ParseFailure::NoMatch));
}

#[test]
fn format_reply() {
    assert_eq!(parse_sms_format("\r\n+CMGF: 1\r\n\r\nOK\r\n"), Ok(SmsFormat::Text));
    assert_eq!(parse_sms_format("\r\n+CMGF: 0\r\n\r\nOK\r\n"), Ok(SmsFormat::ProtocolDataUnit));
    assert_eq!(parse_sms_format("\r\n+CMGF: 2\r\n\r\nOK\r\n"), Err(ParseFailure::NoMatch));
}

#[test]
fn time_zone_reply() {
    assert_eq!(parse_auto_timezone("\r\n+CTZU: 1\r\n\r\nOK\r\n"), Ok(true));
    assert_eq!(parse_auto_timezone("\r\n+CTZU: 0\r\n\r\nOK\r\n"), Ok(false));
    assert_eq!(parse_auto_timezone("\r\n+CTZU: \r\n\r\nOK\r\n"), Err(ParseFailure::NoMatch));
    assert_eq!(parse_switch("0"), Ok(false));
    assert_eq!(parse_switch("1"), Ok(true));
    assert_eq!(parse_switch("2"), Err(ParseFailure::InvalidNumber));
    assert_eq!(parse_switch(""), Err(ParseFailure::InvalidNumber));
    assert_eq!(parse_switch("01"), Err(ParseFailure::InvalidNumber));
}

#[test]
fn signal_quality_reply() {
    assert_eq!(parse_signal_quality("\r\n+CSQ: 20,0\r\n\r\nOK\r\n"), Ok((20, 0)));
    assert_eq!(parse_signal_quality("\r\n+CSQ: 99,99\r\n\r\nOK\r\n"), Ok((99, 99)));
    assert_eq!(parse_signal_quality("\r\n+CSQ: 255,7\r\n\r\nOK\r\n"), Ok((255, 7)));
    assert_eq!(
        parse_signal_quality("\r\n+CSQ: 256,7\r\n\r\nOK\r\n"),
        Err(ParseFailure::InvalidNumber)
    );
    assert_eq!(
        parse_signal_quality("\r\n+CSQ: ,7\r\n\r\nOK\r\n"),
        Err(ParseFailure::InvalidNumber)
    );
    assert_eq!(
        parse_signal_quality("\r\n+CSQ: 7,\r\n\r\nOK\r\n"),
        Err(ParseFailure::InvalidNumber)
    );
    assert_eq!(parse_signal_quality("\r\nOK\r\n"), Err(ParseFailure::NoMatch));
    let text = |s: &str| Some(String::from(s));
    assert_eq!(signal_quality_from_captures(&vec![text("x"), text("31"), text("5")]), Ok((31, 5)));
    assert_eq!(
        signal_quality_from_captures(&vec![text("x"), text("31")]),
        Err(ParseFailure::MissingField(Field::Value))
    );
    assert_eq!(parse_u8("255"), Some(255));
    assert_eq!(parse_u8("256"), None);
    assert_eq!(parse_u8(""), None);
}

#[test]
fn patterns_are_searched() {
    assert_eq!(has_match(r"\d+", "abc 42"), Ok(true));
    assert_eq!(has_match(r"\d+", "abc"), Ok(false));
    assert_eq!(has_match(r"(", "abc"), Err(ParseFailure::InvalidPattern));
    assert_eq!(
        first_match(r"(a)(b)?(c)", "xacx"),
        Ok(Some(vec![
            Some(String::from("ac")),
            Some(String::from("a")),
            None,
            Some(String::from("c"))
        ]))
    );
    assert_eq!(first_match(r"(a)(b)?(c)", "xyz"), Ok(None));
    assert_eq!(first_match(r"a)", "a"), Err(ParseFailure::InvalidPattern));
    assert_eq!(
        all_matches(r"(\d)(x)?", "1x 2 3x"),
        Ok(vec![
            vec![Some(String::from("1x")), Some(String::from("1")), Some(String::from("x"))],
            vec![Some(String::from("2")), Some(String::from("2")), None],
            vec![Some(String::from("3x")), Some(String::from("3")), Some(String::from("x"))],
        ])
    );
    assert_eq!(all_matches(r"\d", "none"), Ok(vec![]));
    assert_eq!(all_matches(r"[", "none"), Err(ParseFailure::InvalidPattern));
    let groups = vec![Some(String::from("ac")), None];
    assert_eq!(group(&groups, 0), Some("ac"));
    assert_eq!(group(&groups, 1), None);
    assert_eq!(group(&groups, 2), None);
    assert_eq!(capture_first_group(r"n=(\d+)", "n=12;n=13"), Ok(String::from("12")));
    assert_eq!(
        capture_first_group(r"n=(\d+)?", "n=;"),
        Err(ParseFailure::MissingField(Field::Value))
    );
    assert_eq!(capture_first_group(r"n=", "n=;"), Err(ParseFailure::MissingField(Field::Value)));
}

#[test]
fn errors_are_decoded() {
    assert!(matches!(decode_error("\r\nERROR\r\n"), ModemOutcome::Generic));
    assert!(matches!(decode_error(""), ModemOutcome::Generic));
    match decode_error("\r\n+CMS ERROR: 321\r\n") {
        ModemOutcome::Modem(error) => assert_eq!(error.as_string(), "CMS Error: Invalid memory index"),
        other => panic!("unexpected outcome: {:?}", other),
    }
    let text = |s: &str| Some(String::from(s));
    assert!(matches!(
        error_from_captures(&vec![text("x"), text("CMX"), text("1")]),
        ModemOutcome::Protocol(ParseFailure::UnknownCategory)
    ));
    assert!(matches!(
        error_from_captures(&vec![text("x"), None, text("1")]),
        ModemOutcome::Protocol(ParseFailure::MissingField(Field::Category))
    ));
    assert!(matches!(
        error_from_captures(&vec![text("x"), text("CME")]),
        ModemOutcome::Protocol(ParseFailure::MissingField(Field::Code))
    ));
    assert!(matches!(
        error_from_captures(&vec![text("x"), text("CME"), text("2147483648")]),
        ModemOutcome::Protocol(ParseFailure::InvalidNumber)
    ));
    match error_from_captures(&vec![text("x"), text("CME"), text("2147483647")]) {
        ModemOutcome::Modem(error) => {
            assert_eq!(error.code(), 2147483647);
            assert_eq!(error.text(), "Unrecognized error");
        }
        other => panic!("unexpected outcome: {:?}", other),
    }
}

#[test]
fn configuration_is_kept() {
    let configuration = Configuration::new("/dev/ttyS0", 115_200, 10);
    assert_eq!(configuration.port_path(), "/dev/ttyS0");
    assert_eq!(configuration.baud_rate(), 115_200);
    assert_eq!(configuration.read_timeout_millis(), 10);
}
