//! The commands that the driver sends, and the readers of their short replies.

use vstd::prelude::*;
use crate::constants::{ResultCodes, SmsFormat, SmsStatus, AWAITING_INPUT_PATTERN};
use crate::error::{text_result, Field, ImeiError, ParseFailure};
use crate::pattern::{first_match, pattern_captures, required, required_text};
use crate::text::{decimal_text, parse_u32, parsed_u32, u32_to_decimal};
use crate::utils::{check_imei, imei_checked};

verus! {

/// Clears the configuration that the modem holds.
pub const RESET_COMMAND: &'static str = "ATZ\r";

/// Stops the modem from repeating what it is sent.
pub const DISABLE_ECHO_COMMAND: &'static str = "ATE0\r";

/// Makes the modem report errors by number.
pub const NUMERIC_ERRORS_COMMAND: &'static str = "AT+CMEE=1\r";

/// Makes the modem take and give messages as text.
pub const TEXT_MODE_COMMAND: &'static str = "AT+CMGF=1\r";

/// Makes the modem write addresses and contents of messages as hex code units.
pub const UCS2_CHARSET_COMMAND: &'static str = "AT+CSCS=\"UCS2\"\r";

/// Asks for the IMEI.
pub const GET_IMEI_COMMAND: &'static str = "AT+SIMEI?\r";

/// Asks for the format of messages.
pub const GET_SMS_FORMAT_COMMAND: &'static str = "AT+CMGF?\r";

/// Asks for the quality of the signal.
pub const GET_SIGNAL_QUALITY_COMMAND: &'static str = "AT+CSQ\r";

/// Asks whether the modem takes its time zone from the network.
pub const GET_AUTO_TIMEZONE_COMMAND: &'static str = "AT+CTZU?\r";

/// The pattern of the reply that gives the IMEI (group 1).
pub const IMEI_PATTERN: &'static str = r"\+SIMEI: (\d{15})";

/// The pattern of the reply that gives the format of messages (group 1).
pub const SMS_FORMAT_PATTERN: &'static str = r"\+CMGF: (1|0)";

/// The pattern of the reply that gives the signal quality (group 1) and the bit error rate
/// (group 2).
pub const SIGNAL_QUALITY_PATTERN: &'static str = r"\+CSQ: (\d{0,3}),(\d{0,2})";

/// The pattern of the reply that tells whether the time zone follows the network
/// (group 1).
pub const AUTO_TIMEZONE_PATTERN: &'static str = r"\+CTZU: (1|0)";

/// The commands that set the modem up, in the order in which they are sent.
pub open spec fn configuration() -> Seq<Seq<char>> {
    seq![
        RESET_COMMAND@,
        DISABLE_ECHO_COMMAND@,
        NUMERIC_ERRORS_COMMAND@,
        TEXT_MODE_COMMAND@,
        UCS2_CHARSET_COMMAND@,
    ]
}

/// The commands that set the modem up, in the order in which they are sent.
pub fn configure_commands() -> (commands: Vec<&'static str>)
    ensures
        commands.deep_view() == configuration(),
{
    let mut commands: Vec<&'static str> = Vec::new();
    // Clear existing config on the modem
    commands.push(RESET_COMMAND);
    // Disable echo on the modem
    commands.push(DISABLE_ECHO_COMMAND);
    // Set error codes to numeric
    commands.push(NUMERIC_ERRORS_COMMAND);
    // Set the PDU mode to text
    commands.push(TEXT_MODE_COMMAND);
    // Make all responses around SMS numbers/content hex that can be converted to UTF-16
    commands.push(UCS2_CHARSET_COMMAND);
    commands
}

/// The command that announces a text message to `destination`. The modem answers it with
/// the prompt for the content.
pub fn send_sms_command(destination: &str) -> (command: String)
    ensures
        command@ == "AT+CMGS=\""@ + destination@ + "\"\r"@,
{
    let mut command = String::from_str("AT+CMGS=\"");
    command.append(destination);
    command.append("\"\r");
    command
}

/// The content of a text message as it is sent after the prompt: the text, then the
/// control character that ends it.
pub fn send_sms_payload(content: &str) -> (message: String)
    ensures
        message@ == content@.push('\u{1a}'),
{
    let mut message = String::from_str(content);
    message.push('\u{1a}');
    message
}

/// The patterns that end the command that announces a text message: the prompt for
/// success, and the error lines with and without code.
pub fn send_sms_terminators() -> (expected_seqs: (String, String))
    ensures
        expected_seqs.0@ == AWAITING_INPUT_PATTERN@,
        expected_seqs.1@ == ResultCodes::error_catchall(),
{
    (
        String::from_str(ResultCodes::AwaitingInput.as_regex_str()),
        ResultCodes::get_error_catchall(),
    )
}

/// The command that sets the IMEI, for an IMEI that is valid. For another no command is
/// made, so that nothing is sent.
pub fn set_imei_command(intended_imei: &str) -> (command: Result<String, ImeiError>)
    ensures
        match command {
            Ok(c) => imei_checked(intended_imei@) is Ok && c@ == "AT+SIMEI="@ + intended_imei@
                + "\r"@,
            Err(e) => imei_checked(intended_imei@) == Err::<(), ImeiError>(e),
        },
{
    match check_imei(intended_imei) {
        Ok(()) => {
            let mut command = String::from_str("AT+SIMEI=");
            command.append(intended_imei);
            command.append("\r");
            Ok(command)
        },
        Err(e) => Err(e),
    }
}

/// The command that sets the format of messages.
pub fn set_sms_format_command(format: SmsFormat) -> (command: String)
    ensures
        command@ == "AT+CMGF="@ + decimal_text(format.code() as nat) + "\r"@,
{
    let code: u8 = format.into();
    let mut command = String::from_str("AT+CMGF=");
    command.append(u32_to_decimal(code as u32).as_str());
    command.append("\r");
    command
}

/// The command that makes the modem take its time zone from the network, or stop doing
/// so.
pub fn set_auto_timezone_command(enable: bool) -> (command: String)
    ensures
        command@ == "AT+CTZU="@ + (if enable {
            "1"@
        } else {
            "0"@
        }) + "\r"@,
{
    let setting = if enable {
        "1"
    } else {
        "0"
    };
    let mut command = String::from_str("AT+CTZU=");
    command.append(setting);
    command.append("\r");
    command
}

/// The command that reads the message in a memory slot.
pub fn read_sms_command(mem_index: u32) -> (command: String)
    ensures
        command@ == "AT+CMGR="@ + decimal_text(mem_index as nat) + "\r"@,
{
    let mut command = String::from_str("AT+CMGR=");
    command.append(u32_to_decimal(mem_index).as_str());
    command.append("\r");
    command
}

/// The command that lists the messages of a status.
pub fn list_sms_command(status: SmsStatus) -> (command: String)
    ensures
        command@ == "AT+CMGL=\""@ + status.keyword() + "\"\r"@,
{
    let mut command = String::from_str("AT+CMGL=\"");
    command.append(status.as_str());
    command.append("\"\r");
    command
}

/// The text of group 1 of the first match of a pattern in a reply.
pub open spec fn first_group(pattern: Seq<char>, resp: Seq<char>) -> Result<
    Seq<char>,
    ParseFailure,
> {
    match pattern_captures(pattern, resp) {
        Err(e) => Err(e),
        Ok(None) => Err(ParseFailure::NoMatch),
        Ok(Some(groups)) => required_text(groups, 1, Field::Value),
    }
}

/// Finds the first match of a pattern in a reply and copies its group 1.
pub fn capture_first_group(pattern: &str, resp: &str) -> (value: Result<String, ParseFailure>)
    ensures
        text_result(value) == first_group(pattern@, resp@),
{
    match first_match(pattern, resp) {
        Err(e) => Err(e),
        Ok(None) => Err(ParseFailure::NoMatch),
        Ok(Some(captures)) => match required(&captures, 1, Field::Value) {
            Ok(text) => Ok(String::from_str(text)),
            Err(e) => Err(e),
        },
    }
}

/// Reads the IMEI from the reply to `GET_IMEI_COMMAND`.
pub fn parse_imei(resp: &str) -> (imei: Result<String, ParseFailure>)
    ensures
        text_result(imei) == first_group(IMEI_PATTERN@, resp@),
{
    capture_first_group(IMEI_PATTERN, resp)
}

/// The format of messages that a reply names.
pub open spec fn sms_format_of(resp: Seq<char>) -> Result<SmsFormat, ParseFailure> {
    match first_group(SMS_FORMAT_PATTERN@, resp) {
        Err(e) => Err(e),
        Ok(mode) => SmsFormat::of_text(mode),
    }
}

/// Reads the format of messages from the reply to `GET_SMS_FORMAT_COMMAND`.
pub fn parse_sms_format(resp: &str) -> (format: Result<SmsFormat, ParseFailure>)
    ensures
        format == sms_format_of(resp@),
{
    match capture_first_group(SMS_FORMAT_PATTERN, resp) {
        Ok(mode) => SmsFormat::try_from(mode),
        Err(e) => Err(e),
    }
}

/// The switch that a text names: `0` is off, `1` is on.
pub open spec fn switch_of(mode: Seq<char>) -> Result<bool, ParseFailure> {
    if mode == "0"@ {
        Ok(false)
    } else if mode == "1"@ {
        Ok(true)
    } else {
        Err(ParseFailure::InvalidNumber)
    }
}

/// Whether the modem takes its time zone from the network, as a reply tells.
pub open spec fn auto_timezone_of(resp: Seq<char>) -> Result<bool, ParseFailure> {
    match first_group(AUTO_TIMEZONE_PATTERN@, resp) {
        Err(e) => Err(e),
        Ok(mode) => switch_of(mode),
    }
}

/// Reads a switch: `0` is off, `1` is on.
pub fn parse_switch(mode: &str) -> (enabled: Result<bool, ParseFailure>)
    ensures
        enabled == switch_of(mode@),
{
    if *mode == *"0" {
        Ok(false)
    } else if *mode == *"1" {
        Ok(true)
    } else {
        Err(ParseFailure::InvalidNumber)
    }
}

/// Reads from the reply to `GET_AUTO_TIMEZONE_COMMAND` whether the modem takes its time
/// zone from the network.
pub fn parse_auto_timezone(resp: &str) -> (enabled: Result<bool, ParseFailure>)
    ensures
        enabled == auto_timezone_of(resp@),
{
    match capture_first_group(AUTO_TIMEZONE_PATTERN, resp) {
        Ok(mode) => parse_switch(mode.as_str()),
        Err(e) => Err(e),
    }
}

/// The number that a text of digits denotes, where it fits 8 bits.
pub open spec fn parsed_u8(digits: Seq<char>) -> Option<u8> {
    match parsed_u32(digits) {
        Some(n) => if n <= u8::MAX {
            Some(n as u8)
        } else {
            None
        },
        None => None,
    }
}

/// The signal quality and the bit error rate that the groups of a matched reply spell.
pub open spec fn signal_quality_of_groups(groups: Seq<Option<Seq<char>>>) -> Result<
    (u8, u8),
    ParseFailure,
> {
    match required_text(groups, 1, Field::Value) {
        Err(e) => Err(e),
        Ok(csq) => match parsed_u8(csq) {
            None => Err(ParseFailure::InvalidNumber),
            Some(csq) => match required_text(groups, 2, Field::Value) {
                Err(e) => Err(e),
                Ok(ber) => match parsed_u8(ber) {
                    None => Err(ParseFailure::InvalidNumber),
                    Some(ber) => Ok((csq, ber)),
                },
            },
        },
    }
}

/// The signal quality and the bit error rate that a reply gives.
pub open spec fn signal_quality_of(resp: Seq<char>) -> Result<(u8, u8), ParseFailure> {
    match pattern_captures(SIGNAL_QUALITY_PATTERN@, resp) {
        Err(e) => Err(e),
        Ok(None) => Err(ParseFailure::NoMatch),
        Ok(Some(groups)) => signal_quality_of_groups(groups),
    }
}

/// Reads a decimal number of at most 8 bits.
pub fn parse_u8(digits: &str) -> (value: Option<u8>)
    ensures
        value == parsed_u8(digits@),
{
    match parse_u32(digits) {
        Some(n) => {
            if n <= u8::MAX as u32 {
                Some(n as u8)
            } else {
                None
            }
        },
        None => None,
    }
}

/// Reads signal quality and bit error rate from the groups of a matched reply.
pub fn signal_quality_from_captures(csq_captures: &Vec<Option<String>>) -> (quality: Result<
    (u8, u8),
    ParseFailure,
>)
    ensures
        quality == signal_quality_of_groups(csq_captures.deep_view()),
{
    let csq = match required(csq_captures, 1, Field::Value) {
        Ok(csq) => csq,
        Err(e) => {
            return Err(e);
        },
    };
    let csq = match parse_u8(csq) {
        Some(csq) => csq,
        None => {
            return Err(ParseFailure::InvalidNumber);
        },
    };
    // Seems like in most cases the bit error rate is unused (?) but include it anyway
    let ber = match required(csq_captures, 2, Field::Value) {
        Ok(ber) => ber,
        Err(e) => {
            return Err(e);
        },
    };
    match parse_u8(ber) {
        Some(ber) => Ok((csq, ber)),
        None => Err(ParseFailure::InvalidNumber),
    }
}

/// Reads signal quality and bit error rate from the reply to
/// `GET_SIGNAL_QUALITY_COMMAND`.
pub fn parse_signal_quality(resp: &str) -> (quality: Result<(u8, u8), ParseFailure>)
    ensures
        quality == signal_quality_of(resp@),
{
    match first_match(SIGNAL_QUALITY_PATTERN, resp) {
        Err(e) => Err(e),
        Ok(None) => Err(ParseFailure::NoMatch),
        Ok(Some(csq_captures)) => signal_quality_from_captures(&csq_captures),
    }
}

} // verus!
