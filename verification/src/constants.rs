//! The vocabulary of the modem: message formats and statuses, the replies that end a
//! command, the notifications, and the two tables of error codes.

use vstd::prelude::*;
use crate::error::ParseFailure;
use crate::text::{
    chars_of, decimal_text, decimal_value, digit_char, is_decimal, leading_space,
    small_decimal_of, small_value, trailing_space, trim_chars, trimmed,
};

verus! {

/// The pattern of the reply that ends a command with success.
pub const OK_PATTERN: &'static str = r"\r\nOK\r\n";

/// The pattern of the reply that ends a command with an error that carries no code.
pub const ERROR_PATTERN: &'static str = r"\r\nERROR\r\n";

/// The pattern of the reply that ends a command with an error category (`CME` or `CMS`,
/// first group) and a numeric code (second group).
pub const ERROR_AND_CODE_PATTERN: &'static str = r"\r\n\+(CM(?:E|S)) ERROR: (\d{1,3})\r\n";

/// The pattern of the prompt with which the modem asks for the body of a command.
pub const AWAITING_INPUT_PATTERN: &'static str = r"\r\n> ";

/// Formats for SMS modes
#[derive(Clone, Copy, Debug, PartialEq, Eq, Structural)]
pub enum SmsFormat {
    ProtocolDataUnit,
    Text,
}

impl SmsFormat {
    /// The number by which the modem names the format.
    pub open spec fn code(self) -> u8 {
        match self {
            SmsFormat::ProtocolDataUnit => 0,
            SmsFormat::Text => 1,
        }
    }

    /// The format that a text names: white space at either end aside, a decimal number
    /// with or without sign that is 0, for PDU mode, or 1, for text mode.
    pub open spec fn of_text(mode: Seq<char>) -> Result<SmsFormat, ParseFailure> {
        let text = trimmed(mode);
        let signed = text.len() > 0 && (text[0] == '-' || text[0] == '+');
        let digits = if signed {
            text.skip(1)
        } else {
            text
        };
        if !is_decimal(digits) {
            Err(ParseFailure::UnknownFormat)
        } else if small_value(digits) == 0 {
            Ok(SmsFormat::ProtocolDataUnit)
        } else if small_value(digits) == 1 && !(signed && text[0] == '-') {
            Ok(SmsFormat::Text)
        } else {
            Err(ParseFailure::UnknownFormat)
        }
    }

    /// Take a string that is a "1" or "0" and convert it into the SmsFormat enum
    pub fn try_from(mode: String) -> (format: Result<SmsFormat, ParseFailure>)
        ensures
            format == SmsFormat::of_text(mode@),
    {
        let all = chars_of(mode.as_str());
        let text = trim_chars(&all);
        let negative = text.len() > 0 && text[0] == '-';
        let signed = negative || (text.len() > 0 && text[0] == '+');
        let start: usize = if signed {
            1
        } else {
            0
        };
        proof {
            assert(text@.skip(0) == text@);
        }
        match small_decimal_of(&text, start) {
            Some(0) => Ok(SmsFormat::ProtocolDataUnit),
            Some(1) => {
                if negative {
                    Err(ParseFailure::UnknownFormat)
                } else {
                    Ok(SmsFormat::Text)
                }
            },
            _ => Err(ParseFailure::UnknownFormat),
        }
    }

    /// Every format is the one that its own number, written in decimal, names.
    pub proof fn lemma_format_round_trip(format: SmsFormat)
        ensures
            SmsFormat::of_text(decimal_text(format.code() as nat)) == Ok::<
                SmsFormat,
                ParseFailure,
            >(format),
    {
        let text = decimal_text(format.code() as nat);
        assert(trimmed(text) == text);
        assert(decimal_value(text.drop_last()) == 0);
    }
}

impl From<SmsFormat> for u8 {
    // Convert from the enum into the given 0/1
    fn from(format: SmsFormat) -> (code: u8) {
        match format {
            SmsFormat::ProtocolDataUnit => 0,
            SmsFormat::Text => 1,
        }
    }
}

impl vstd::std_specs::convert::FromSpecImpl<SmsFormat> for u8 {
    open spec fn obeys_from_spec() -> bool {
        true
    }

    open spec fn from_spec(format: SmsFormat) -> u8 {
        format.code()
    }
}

/// The states in which the modem files a stored message, and the query for all of them.
#[derive(Clone, Copy, Debug, PartialEq, Eq, Structural)]
pub enum SmsStatus {
    ReceivedUnread,
    ReceivedRead,
    StoredUnsent,
    StoredSent,
    All,
}

impl From<SmsStatus> for u8 {
    /// Used only for PDU mode
    fn from(status: SmsStatus) -> (code: u8) {
        match status {
            SmsStatus::ReceivedUnread => 0,
            SmsStatus::ReceivedRead => 1,
            SmsStatus::StoredUnsent => 2,
            SmsStatus::StoredSent => 3,
            SmsStatus::All => 4,
        }
    }
}

impl vstd::std_specs::convert::FromSpecImpl<SmsStatus> for u8 {
    open spec fn obeys_from_spec() -> bool {
        true
    }

    open spec fn from_spec(status: SmsStatus) -> u8 {
        status.code()
    }
}

impl SmsStatus {
    /// The number by which the modem names the status in PDU mode.
    pub open spec fn code(self) -> u8 {
        match self {
            SmsStatus::ReceivedUnread => 0,
            SmsStatus::ReceivedRead => 1,
            SmsStatus::StoredUnsent => 2,
            SmsStatus::StoredSent => 3,
            SmsStatus::All => 4,
        }
    }

    /// The keyword by which the modem names the status in text mode.
    pub open spec fn keyword(self) -> Seq<char> {
        match self {
            SmsStatus::ReceivedUnread => "REC UNREAD"@,
            SmsStatus::ReceivedRead => "REC READ"@,
            SmsStatus::StoredUnsent => "STO UNSENT"@,
            SmsStatus::StoredSent => "STO SENT"@,
            SmsStatus::All => "ALL"@,
        }
    }

    /// The status that a text-mode keyword names.
    pub open spec fn of_keyword(keyword: Seq<char>) -> Result<SmsStatus, ParseFailure> {
        if keyword == "REC UNREAD"@ {
            Ok(SmsStatus::ReceivedUnread)
        } else if keyword == "REC READ"@ {
            Ok(SmsStatus::ReceivedRead)
        } else if keyword == "STO UNSENT"@ {
            Ok(SmsStatus::StoredUnsent)
        } else if keyword == "STO SENT"@ {
            Ok(SmsStatus::StoredSent)
        } else if keyword == "ALL"@ {
            Ok(SmsStatus::All)
        } else {
            Err(ParseFailure::UnknownStatus)
        }
    }

    /// The status that a PDU-mode number names.
    pub open spec fn of_code(code: u8) -> Result<SmsStatus, ParseFailure> {
        match code {
            0 => Ok(SmsStatus::ReceivedUnread),
            1 => Ok(SmsStatus::ReceivedRead),
            2 => Ok(SmsStatus::StoredUnsent),
            3 => Ok(SmsStatus::StoredSent),
            4 => Ok(SmsStatus::All),
            _ => Err(ParseFailure::UnknownStatus),
        }
    }

    /// Used only for text mode
    pub fn as_str(&self) -> (keyword: &'static str)
        ensures
            keyword@ == self.keyword(),
    {
        match self {
            SmsStatus::ReceivedUnread => "REC UNREAD",
            SmsStatus::ReceivedRead => "REC READ",
            SmsStatus::StoredUnsent => "STO UNSENT",
            SmsStatus::StoredSent => "STO SENT",
            SmsStatus::All => "ALL",
        }
    }

    /// Reads a status from its text-mode keyword, which is matched to the letter.
    pub fn try_from_text_status(&self, status: String) -> (parsed: Result<SmsStatus, ParseFailure>)
        ensures
            parsed == SmsStatus::of_keyword(status@),
    {
        let status = status.as_str();
        if *status == *"REC UNREAD" {
            Ok(SmsStatus::ReceivedUnread)
        } else if *status == *"REC READ" {
            Ok(SmsStatus::ReceivedRead)
        } else if *status == *"STO UNSENT" {
            Ok(SmsStatus::StoredUnsent)
        } else if *status == *"STO SENT" {
            Ok(SmsStatus::StoredSent)
        } else if *status == *"ALL" {
            Ok(SmsStatus::All)
        } else {
            Err(ParseFailure::UnknownStatus)
        }
    }

    /// Reads a status from its PDU-mode number.
    pub fn try_from_pdu_status(&self, status: u8) -> (parsed: Result<SmsStatus, ParseFailure>)
        ensures
            parsed == SmsStatus::of_code(status),
    {
        match status {
            0 => Ok(SmsStatus::ReceivedUnread),
            1 => Ok(SmsStatus::ReceivedRead),
            2 => Ok(SmsStatus::StoredUnsent),
            3 => Ok(SmsStatus::StoredSent),
            4 => Ok(SmsStatus::All),
            _ => Err(ParseFailure::UnknownStatus),
        }
    }

    /// Every status is the one that its own keyword names, and the one that its own number
    /// names.
    pub proof fn lemma_status_round_trip(status: SmsStatus)
        ensures
            SmsStatus::of_keyword(status.keyword()) == Ok::<SmsStatus, ParseFailure>(status),
            SmsStatus::of_code(status.code()) == Ok::<SmsStatus, ParseFailure>(status),
    {
        reveal_strlit("REC UNREAD");
        reveal_strlit("REC READ");
        reveal_strlit("STO UNSENT");
        reveal_strlit("STO SENT");
        reveal_strlit("ALL");
        assert("REC READ"@.len() == 8 && "REC READ"@[0] == 'R');
        assert("STO UNSENT"@.len() == 10 && "STO UNSENT"@[0] == 'S');
        assert("STO SENT"@.len() == 8 && "STO SENT"@[0] == 'S');
        assert("ALL"@.len() == 3);
    }
}

/// The replies that end a command.
#[derive(Clone, Copy, Debug, PartialEq, Eq, Structural)]
pub enum ResultCodes {
    Okay,
    Error,
    ErrorAndCode,
    AwaitingInput,
}

impl ResultCodes {
    /// The pattern that recognises the reply.
    pub open spec fn pattern(self) -> Seq<char> {
        match self {
            ResultCodes::Okay => OK_PATTERN@,
            ResultCodes::Error => ERROR_PATTERN@,
            ResultCodes::ErrorAndCode => ERROR_AND_CODE_PATTERN@,
            ResultCodes::AwaitingInput => AWAITING_INPUT_PATTERN@,
        }
    }

    /// The pattern that recognises an error reply with or without a code.
    pub open spec fn error_catchall() -> Seq<char> {
        "("@ + ERROR_PATTERN@ + ")|("@ + ERROR_AND_CODE_PATTERN@ + ")"@
    }

    /// Get the proper regex str for the corresponding reply
    pub fn as_regex_str(&self) -> (pattern: &'static str)
        ensures
            pattern@ == self.pattern(),
    {
        match self {
            ResultCodes::Okay => OK_PATTERN,
            ResultCodes::Error => ERROR_PATTERN,
            // Capture both CMS & CME error codes
            ResultCodes::ErrorAndCode => ERROR_AND_CODE_PATTERN,
            ResultCodes::AwaitingInput => AWAITING_INPUT_PATTERN,
        }
    }

    /// Joins the patterns of the plain and of the coded error reply into one alternation.
    ///
    /// The groups of the coded reply keep their meaning, but not their numbers: to read
    /// category and code, match the coded pattern by itself.
    pub fn get_error_catchall() -> (pattern: String)
        ensures
            pattern@ == ResultCodes::error_catchall(),
    {
        let mut pattern = String::from_str("(");
        pattern.append(ResultCodes::Error.as_regex_str());
        pattern.append(")|(");
        pattern.append(ResultCodes::ErrorAndCode.as_regex_str());
        pattern.append(")");
        pattern
    }
}

/// Result codes that are unsolicited and happen async
#[derive(Clone, Copy, Debug, PartialEq, Eq, Structural)]
pub enum UnsolicitedResultCode {
    /// The modem is ready to begin taking commands
    Ready,
    /// A new SMS message has been received
    CMTI,
    /// Incoming call
    Ring,
    /// A call was missed
    MissedCall,
    /// The carrier is unavailable
    NoCarrier,
    /// A voice call has started
    VoiceCallBegin,
    /// A voice call has ended
    VoiceCallEnd,
    /// User's timezone has changed
    TimeZoneChange,
    /// SMS storage is full and needs to be cleared
    SmsFull,
}

/// The pattern of the line with which the modem reports that it is ready.
pub const READY_PATTERN: &'static str = r"RDY\r\n";

/// Captures the storage slot of the new message.
pub const CMTI_PATTERN: &'static str = r#"\+CMTI: "SM",(\d{1,3})\r\n"#;

/// The pattern of the line with which the modem reports a call that comes in.
pub const RING_PATTERN: &'static str = r"RING\r\r\n";

/// Captures (1) the time the call was missed and (2) the number that called.
pub const MISSED_CALL_PATTERN: &'static str = r"MISSED_CALL: (\d{2}:\d{2}[AP]M) (.*)\r\n";

/// The pattern of the line with which the modem reports that the carrier is gone.
pub const NO_CARRIER_PATTERN: &'static str = r"NO CARRIER\r\r\n";

/// The pattern of the line with which the modem reports that a voice call has begun.
pub const VOICE_CALL_BEGIN_PATTERN: &'static str = r"VOICE CALL: BEGIN\r\n";

/// Captures the call time (in the format of HHMMSS).
pub const VOICE_CALL_END_PATTERN: &'static str = r"VOICE CALL: END: (\d{6})";

/// Captures the time zone, counted in quarters of an hour, and ignores what follows it.
pub const TIME_ZONE_CHANGE_PATTERN: &'static str = r"\r\n\+CTZV: (\d+)(?:,.*)?\r\n";

/// The pattern of the line with which the modem reports that its message storage is full:
/// the words after a line break of one carriage return and one or more line feeds.
pub const SMS_FULL_PATTERN: &'static str = r"\r\n+SMS FULL\r\n";

impl UnsolicitedResultCode {
    /// The pattern that recognises the notification.
    pub open spec fn pattern(self) -> Seq<char> {
        match self {
            UnsolicitedResultCode::Ready => READY_PATTERN@,
            UnsolicitedResultCode::CMTI => CMTI_PATTERN@,
            UnsolicitedResultCode::Ring => RING_PATTERN@,
            UnsolicitedResultCode::MissedCall => MISSED_CALL_PATTERN@,
            UnsolicitedResultCode::NoCarrier => NO_CARRIER_PATTERN@,
            UnsolicitedResultCode::VoiceCallBegin => VOICE_CALL_BEGIN_PATTERN@,
            UnsolicitedResultCode::VoiceCallEnd => VOICE_CALL_END_PATTERN@,
            UnsolicitedResultCode::TimeZoneChange => TIME_ZONE_CHANGE_PATTERN@,
            UnsolicitedResultCode::SmsFull => SMS_FULL_PATTERN@,
        }
    }

    /// The notifications in the order in which a buffer is tried against them.
    pub open spec fn priority() -> Seq<UnsolicitedResultCode> {
        seq![
            UnsolicitedResultCode::Ready,
            UnsolicitedResultCode::CMTI,
            UnsolicitedResultCode::Ring,
            UnsolicitedResultCode::MissedCall,
            UnsolicitedResultCode::NoCarrier,
            UnsolicitedResultCode::VoiceCallBegin,
            UnsolicitedResultCode::VoiceCallEnd,
            UnsolicitedResultCode::TimeZoneChange,
            UnsolicitedResultCode::SmsFull,
        ]
    }

    /// Get the proper regex str for the corresponding URC
    ///
    /// If the URC returns data, it will (mostly) be captured by the regex str
    pub fn as_regex_str(&self) -> (pattern: &'static str)
        ensures
            pattern@ == self.pattern(),
    {
        match self {
            UnsolicitedResultCode::Ready => READY_PATTERN,
            UnsolicitedResultCode::CMTI => CMTI_PATTERN,
            UnsolicitedResultCode::Ring => RING_PATTERN,
            UnsolicitedResultCode::MissedCall => MISSED_CALL_PATTERN,
            UnsolicitedResultCode::NoCarrier => NO_CARRIER_PATTERN,
            UnsolicitedResultCode::VoiceCallBegin => VOICE_CALL_BEGIN_PATTERN,
            UnsolicitedResultCode::VoiceCallEnd => VOICE_CALL_END_PATTERN,
            UnsolicitedResultCode::TimeZoneChange => TIME_ZONE_CHANGE_PATTERN,
            UnsolicitedResultCode::SmsFull => SMS_FULL_PATTERN,
        }
    }

    /// Get every URC with its pattern, in the order of priority
    pub fn get_regex_array() -> (table: Vec<(UnsolicitedResultCode, &'static str)>)
        ensures
            table@.len() == UnsolicitedResultCode::priority().len(),
            forall|i: int|
                0 <= i < table@.len() ==> (#[trigger] table@[i]).0
                    == UnsolicitedResultCode::priority()[i] && table@[i].1@
                    == UnsolicitedResultCode::priority()[i].pattern(),
    {
        let mut table: Vec<(UnsolicitedResultCode, &'static str)> = Vec::new();
        table.push((UnsolicitedResultCode::Ready, UnsolicitedResultCode::Ready.as_regex_str()));
        table.push((UnsolicitedResultCode::CMTI, UnsolicitedResultCode::CMTI.as_regex_str()));
        table.push((UnsolicitedResultCode::Ring, UnsolicitedResultCode::Ring.as_regex_str()));
        table.push(
            (UnsolicitedResultCode::MissedCall, UnsolicitedResultCode::MissedCall.as_regex_str()),
        );
        table.push(
            (UnsolicitedResultCode::NoCarrier, UnsolicitedResultCode::NoCarrier.as_regex_str()),
        );
        table.push(
            (
                UnsolicitedResultCode::VoiceCallBegin,
                UnsolicitedResultCode::VoiceCallBegin.as_regex_str(),
            ),
        );
        table.push(
            (
                UnsolicitedResultCode::VoiceCallEnd,
                UnsolicitedResultCode::VoiceCallEnd.as_regex_str(),
            ),
        );
        table.push(
            (
                UnsolicitedResultCode::TimeZoneChange,
                UnsolicitedResultCode::TimeZoneChange.as_regex_str(),
            ),
        );
        table.push((UnsolicitedResultCode::SmsFull, UnsolicitedResultCode::SmsFull.as_regex_str()));
        table
    }
}

/// Modem Error Types
#[derive(Clone, Copy, Debug, PartialEq, Eq, Structural)]
pub enum ModemErrorType {
    /// An error of the device itself (`+CME ERROR`).
    CmeError,
    /// An error of the network or the message service (`+CMS ERROR`).
    CmsError,
}

impl ModemErrorType {
    /// The letters by which the modem names the category.
    pub open spec fn label(self) -> Seq<char> {
        match self {
            ModemErrorType::CmeError => "CME"@,
            ModemErrorType::CmsError => "CMS"@,
        }
    }

    /// The category that the letters name.
    pub open spec fn of_label(label: Seq<char>) -> Option<ModemErrorType> {
        if label == "CME"@ {
            Some(ModemErrorType::CmeError)
        } else if label == "CMS"@ {
            Some(ModemErrorType::CmsError)
        } else {
            None
        }
    }

    /// Returns the string format of the modem error types
    pub fn as_str(&self) -> (label: &'static str)
        ensures
            label@ == self.label(),
    {
        match self {
            ModemErrorType::CmeError => "CME",
            ModemErrorType::CmsError => "CMS",
        }
    }

    /// Reads the category from the letters that the modem sends.
    pub fn from_label(label: &str) -> (category: Option<ModemErrorType>)
        ensures
            category == ModemErrorType::of_label(label@),
    {
        if *label == *"CME" {
            Some(ModemErrorType::CmeError)
        } else if *label == *"CMS" {
            Some(ModemErrorType::CmsError)
        } else {
            None
        }
    }
}

/// The description of a code that neither table holds.
pub const UNRECOGNIZED_ERROR: &'static str = "Unrecognized error";

/// The known device-category (`+CME ERROR`) codes and their descriptions.
pub open spec fn device_error_text(code: i32) -> Option<Seq<char>> {
    match code {
        0 => Some("Phone failure"@),
        1 => Some("No connection to phone"@),
        2 => Some("Phone adapter link reserved"@),
        3 => Some("Operation not allowed"@),
        4 => Some("Operation not supported"@),
        5 => Some("PH_SIM PIN required"@),
        6 => Some("PH_FSIM PIN required"@),
        7 => Some("PH_FSIM PUK required"@),
        10 => Some("SIM not inserted"@),
        11 => Some("SIM PIN required"@),
        12 => Some("SIM PUK required"@),
        13 => Some("SIM failure"@),
        14 => Some("SIM busy"@),
        15 => Some("SIM wrong"@),
        16 => Some("Incorrect password"@),
        17 => Some("SIM PIN2 required"@),
        18 => Some("SIM PUK2 required"@),
        20 => Some("Memory full"@),
        21 => Some("Invalid index"@),
        22 => Some("Not found"@),
        23 => Some("Memory failure"@),
        24 => Some("Text string too long"@),
        25 => Some("Invalid characters in text string"@),
        26 => Some("Dial string too long"@),
        27 => Some("Invalid characters in dial string"@),
        30 => Some("No network service"@),
        31 => Some("Network timeout"@),
        32 => Some("Network not allowed, emergency calls only"@),
        40 => Some("Network personalization PIN required"@),
        41 => Some("Network personalization PUK required"@),
        42 => Some("Network subset personalization PIN required"@),
        43 => Some("Network subset personalization PUK required"@),
        44 => Some("Service provider personalization PIN required"@),
        45 => Some("Service provider personalization PUK required"@),
        46 => Some("Corporate personalization PIN required"@),
        47 => Some("Corporate personalization PUK required"@),
        48 => Some("PH-SIM PUK required"@),
        100 => Some("Unknown error"@),
        103 => Some("Illegal MS"@),
        106 => Some("Illegal ME"@),
        107 => Some("GPRS services not allowed"@),
        111 => Some("PLMN not allowed"@),
        112 => Some("Location area not allowed"@),
        113 => Some("Roaming not allowed in this location area"@),
        126 => Some("Operation temporary not allowed"@),
        132 => Some("Service operation not supported"@),
        133 => Some("Requested service option not subscribed"@),
        134 => Some("Service option temporary out of order"@),
        148 => Some("Unspecified GPRS error"@),
        149 => Some("PDP authentication failure"@),
        150 => Some("Invalid mobile class"@),
        256 => Some("Operation temporarily not allowed"@),
        257 => Some("Call barred"@),
        258 => Some("Phone is busy"@),
        259 => Some("User abort"@),
        260 => Some("Invalid dial string"@),
        261 => Some("SS not executed"@),
        262 => Some("SIM Blocked"@),
        263 => Some("Invalid block"@),
        772 => Some("SIM powered down "@),
        _ => None,
    }
}

/// The known network-category (`+CMS ERROR`) codes and their descriptions.
pub open spec fn network_error_text(code: i32) -> Option<Seq<char>> {
    match code {
        1 => Some("Unassigned number"@),
        8 => Some("Operator determined barring"@),
        10 => Some("Call bared"@),
        21 => Some("Short message transfer rejected"@),
        27 => Some("Destination out of service"@),
        28 => Some("Unindentified subscriber"@),
        29 => Some("Facility rejected"@),
        30 => Some("Unknown subscriber"@),
        38 => Some("Network out of order"@),
        41 => Some("Temporary failure"@),
        42 => Some("Congestion"@),
        47 => Some("Recources unavailable"@),
        50 => Some("Requested facility not subscribed"@),
        69 => Some("Requested facility not implemented"@),
        81 => Some("Invalid short message transfer reference value"@),
        95 => Some("Invalid message unspecified"@),
        96 => Some("Invalid mandatory information"@),
        97 => Some("Message type non existent or not implemented"@),
        98 => Some("Message not compatible with short message protocol"@),
        99 => Some("Information element non-existent or not implemente"@),
        111 => Some("Protocol error, unspecified"@),
        127 => Some("Internetworking , unspecified"@),
        128 => Some("Telematic internetworking not supported"@),
        129 => Some("Short message type 0 not supported"@),
        130 => Some("Cannot replace short message"@),
        143 => Some("Unspecified TP-PID error"@),
        144 => Some("Data code scheme not supported"@),
        145 => Some("Message class not supported"@),
        159 => Some("Unspecified TP-DCS error"@),
        160 => Some("Command cannot be actioned"@),
        161 => Some("Command unsupported"@),
        175 => Some("Unspecified TP-Command error"@),
        176 => Some("TPDU not supported"@),
        192 => Some("SC busy"@),
        193 => Some("No SC subscription"@),
        194 => Some("SC System failure"@),
        195 => Some("Invalid SME address"@),
        196 => Some("Destination SME barred"@),
        197 => Some("SM Rejected-Duplicate SM"@),
        198 => Some("TP-VPF not supported"@),
        199 => Some("TP-VP not supported"@),
        208 => Some("D0 SIM SMS Storage full"@),
        209 => Some("No SMS Storage capability in SIM"@),
        210 => Some("Error in MS"@),
        211 => Some("Memory capacity exceeded"@),
        212 => Some("Sim application toolkit busy"@),
        213 => Some("SIM data download error"@),
        255 => Some("Unspecified error cause"@),
        300 => Some("ME Failure"@),
        301 => Some("SMS service of ME reserved"@),
        302 => Some("Operation not allowed"@),
        303 => Some("Operation not supported"@),
        304 => Some("Invalid PDU mode parameter"@),
        305 => Some("Invalid Text mode parameter"@),
        310 => Some("SIM not inserted"@),
        311 => Some("SIM PIN required"@),
        312 => Some("PH-SIM PIN required"@),
        313 => Some("SIM failure"@),
        314 => Some("SIM busy"@),
        315 => Some("SIM wrong"@),
        316 => Some("SIM PUK required"@),
        317 => Some("SIM PIN2 required"@),
        318 => Some("SIM PUK2 required"@),
        320 => Some("Memory failure"@),
        321 => Some("Invalid memory index"@),
        322 => Some("Memory full"@),
        330 => Some("SMSC address unknown"@),
        331 => Some("No network service"@),
        332 => Some("Network timeout"@),
        340 => Some("No +CNMA expected"@),
        500 => Some("Unknown error"@),
        512 => Some("User abort"@),
        513 => Some("Unable to store"@),
        514 => Some("Invalid Status"@),
        515 => Some("Device busy or Invalid Character in string"@),
        516 => Some("Invalid length"@),
        517 => Some("Invalid character in PDU"@),
        518 => Some("Invalid parameter"@),
        519 => Some("Invalid length or character"@),
        520 => Some("Invalid character in text"@),
        521 => Some("Timer expired"@),
        522 => Some("Operation temporary not allowed"@),
        532 => Some("SIM not ready"@),
        534 => Some("Cell Broadcast error unknown"@),
        535 => Some("Protocol stack busy"@),
        538 => Some("Invalid parameter "@),
        _ => None,
    }
}


/// The description of an error: its table's text, or the fallback for a code that the
/// table does not hold.
pub open spec fn error_text(e_type: ModemErrorType, code: i32) -> Seq<char> {
    let known = match e_type {
        ModemErrorType::CmeError => device_error_text(code),
        ModemErrorType::CmsError => network_error_text(code),
    };
    match known {
        Some(text) => text,
        None => UNRECOGNIZED_ERROR@,
    }
}

/// Looks a code up in the device-category table.
fn lookup_device_error(code: i32) -> (text: Option<&'static str>)
    ensures
        text.deep_view() == device_error_text(code),
{
    match code {
        0 => Some("Phone failure"),
        1 => Some("No connection to phone"),
        2 => Some("Phone adapter link reserved"),
        3 => Some("Operation not allowed"),
        4 => Some("Operation not supported"),
        5 => Some("PH_SIM PIN required"),
        6 => Some("PH_FSIM PIN required"),
        7 => Some("PH_FSIM PUK required"),
        10 => Some("SIM not inserted"),
        11 => Some("SIM PIN required"),
        12 => Some("SIM PUK required"),
        13 => Some("SIM failure"),
        14 => Some("SIM busy"),
        15 => Some("SIM wrong"),
        16 => Some("Incorrect password"),
        17 => Some("SIM PIN2 required"),
        18 => Some("SIM PUK2 required"),
        20 => Some("Memory full"),
        21 => Some("Invalid index"),
        22 => Some("Not found"),
        23 => Some("Memory failure"),
        24 => Some("Text string too long"),
        25 => Some("Invalid characters in text string"),
        26 => Some("Dial string too long"),
        27 => Some("Invalid characters in dial string"),
        30 => Some("No network service"),
        31 => Some("Network timeout"),
        32 => Some("Network not allowed, emergency calls only"),
        40 => Some("Network personalization PIN required"),
        41 => Some("Network personalization PUK required"),
        42 => Some("Network subset personalization PIN required"),
        43 => Some("Network subset personalization PUK required"),
        44 => Some("Service provider personalization PIN required"),
        45 => Some("Service provider personalization PUK required"),
        46 => Some("Corporate personalization PIN required"),
        47 => Some("Corporate personalization PUK required"),
        48 => Some("PH-SIM PUK required"),
        100 => Some("Unknown error"),
        103 => Some("Illegal MS"),
        106 => Some("Illegal ME"),
        107 => Some("GPRS services not allowed"),
        111 => Some("PLMN not allowed"),
        112 => Some("Location area not allowed"),
        113 => Some("Roaming not allowed in this location area"),
        126 => Some("Operation temporary not allowed"),
        132 => Some("Service operation not supported"),
        133 => Some("Requested service option not subscribed"),
        134 => Some("Service option temporary out of order"),
        148 => Some("Unspecified GPRS error"),
        149 => Some("PDP authentication failure"),
        150 => Some("Invalid mobile class"),
        256 => Some("Operation temporarily not allowed"),
        257 => Some("Call barred"),
        258 => Some("Phone is busy"),
        259 => Some("User abort"),
        260 => Some("Invalid dial string"),
        261 => Some("SS not executed"),
        262 => Some("SIM Blocked"),
        263 => Some("Invalid block"),
        772 => Some("SIM powered down "),
        _ => None,
    }
}

/// Looks a code up in the network-category table.
fn lookup_network_error(code: i32) -> (text: Option<&'static str>)
    ensures
        text.deep_view() == network_error_text(code),
{
    match code {
        1 => Some("Unassigned number"),
        8 => Some("Operator determined barring"),
        10 => Some("Call bared"),
        21 => Some("Short message transfer rejected"),
        27 => Some("Destination out of service"),
        28 => Some("Unindentified subscriber"),
        29 => Some("Facility rejected"),
        30 => Some("Unknown subscriber"),
        38 => Some("Network out of order"),
        41 => Some("Temporary failure"),
        42 => Some("Congestion"),
        47 => Some("Recources unavailable"),
        50 => Some("Requested facility not subscribed"),
        69 => Some("Requested facility not implemented"),
        81 => Some("Invalid short message transfer reference value"),
        95 => Some("Invalid message unspecified"),
        96 => Some("Invalid mandatory information"),
        97 => Some("Message type non existent or not implemented"),
        98 => Some("Message not compatible with short message protocol"),
        99 => Some("Information element non-existent or not implemente"),
        111 => Some("Protocol error, unspecified"),
        127 => Some("Internetworking , unspecified"),
        128 => Some("Telematic internetworking not supported"),
        129 => Some("Short message type 0 not supported"),
        130 => Some("Cannot replace short message"),
        143 => Some("Unspecified TP-PID error"),
        144 => Some("Data code scheme not supported"),
        145 => Some("Message class not supported"),
        159 => Some("Unspecified TP-DCS error"),
        160 => Some("Command cannot be actioned"),
        161 => Some("Command unsupported"),
        175 => Some("Unspecified TP-Command error"),
        176 => Some("TPDU not supported"),
        192 => Some("SC busy"),
        193 => Some("No SC subscription"),
        194 => Some("SC System failure"),
        195 => Some("Invalid SME address"),
        196 => Some("Destination SME barred"),
        197 => Some("SM Rejected-Duplicate SM"),
        198 => Some("TP-VPF not supported"),
        199 => Some("TP-VP not supported"),
        208 => Some("D0 SIM SMS Storage full"),
        209 => Some("No SMS Storage capability in SIM"),
        210 => Some("Error in MS"),
        211 => Some("Memory capacity exceeded"),
        212 => Some("Sim application toolkit busy"),
        213 => Some("SIM data download error"),
        255 => Some("Unspecified error cause"),
        300 => Some("ME Failure"),
        301 => Some("SMS service of ME reserved"),
        302 => Some("Operation not allowed"),
        303 => Some("Operation not supported"),
        304 => Some("Invalid PDU mode parameter"),
        305 => Some("Invalid Text mode parameter"),
        310 => Some("SIM not inserted"),
        311 => Some("SIM PIN required"),
        312 => Some("PH-SIM PIN required"),
        313 => Some("SIM failure"),
        314 => Some("SIM busy"),
        315 => Some("SIM wrong"),
        316 => Some("SIM PUK required"),
        317 => Some("SIM PIN2 required"),
        318 => Some("SIM PUK2 required"),
        320 => Some("Memory failure"),
        321 => Some("Invalid memory index"),
        322 => Some("Memory full"),
        330 => Some("SMSC address unknown"),
        331 => Some("No network service"),
        332 => Some("Network timeout"),
        340 => Some("No +CNMA expected"),
        500 => Some("Unknown error"),
        512 => Some("User abort"),
        513 => Some("Unable to store"),
        514 => Some("Invalid Status"),
        515 => Some("Device busy or Invalid Character in string"),
        516 => Some("Invalid length"),
        517 => Some("Invalid character in PDU"),
        518 => Some("Invalid parameter"),
        519 => Some("Invalid length or character"),
        520 => Some("Invalid character in text"),
        521 => Some("Timer expired"),
        522 => Some("Operation temporary not allowed"),
        532 => Some("SIM not ready"),
        534 => Some("Cell Broadcast error unknown"),
        535 => Some("Protocol stack busy"),
        538 => Some("Invalid parameter "),
        _ => None,
    }
}

/// An error type for errors returned by the modem
#[derive(Debug)]
pub struct ModemError {
    e_type: ModemErrorType,
    code: i32,
    text: String,
}

/// What a `ModemError` holds.
pub struct ModemErrorView {
    pub e_type: ModemErrorType,
    pub code: i32,
    pub text: Seq<char>,
}

impl View for ModemError {
    type V = ModemErrorView;

    closed spec fn view(&self) -> ModemErrorView {
        ModemErrorView { e_type: self.e_type, code: self.code, text: self.text@ }
    }
}

impl ModemError {
    /// The description is always the one that the tables give for category and code.
    #[verifier::type_invariant]
    spec fn described(&self) -> bool {
        self.text@ == error_text(self.e_type, self.code)
    }

    /// Create a new error from an error type & code
    pub fn new(e_type: ModemErrorType, code: i32) -> (error: ModemError)
        ensures
            error@ == (ModemErrorView { e_type, code, text: error_text(e_type, code) }),
    {
        let known = match e_type {
            ModemErrorType::CmsError => lookup_network_error(code),
            ModemErrorType::CmeError => lookup_device_error(code),
        };
        let text = match known {
            Some(text) => String::from_str(text),
            None => String::from_str(UNRECOGNIZED_ERROR),
        };
        ModemError { e_type, code, text }
    }

    /// Get the error as a String
    pub fn as_string(&self) -> (line: String)
        ensures
            line@ == self@.e_type.label() + " Error: "@ + self@.text,
            self@.text == error_text(self@.e_type, self@.code),
    {
        proof {
            use_type_invariant(self);
        }
        let mut line = String::from_str(self.e_type.as_str());
        line.append(" Error: ");
        line.append(self.text.as_str());
        line
    }

    /// The category of the error.
    pub fn error_type(&self) -> (e_type: ModemErrorType)
        ensures
            e_type == self@.e_type,
    {
        self.e_type
    }

    /// The numeric code that the modem sent.
    pub fn code(&self) -> (code: i32)
        ensures
            code == self@.code,
    {
        self.code
    }

    /// The description of the error.
    pub fn text(&self) -> (text: String)
        ensures
            text@ == self@.text,
            text@ == error_text(self@.e_type, self@.code),
    {
        proof {
            use_type_invariant(self);
        }
        self.text.clone()
    }
}

} // verus!
