//! Stored text messages, as the modem gives them in reply to a read of one message and
//! to a listing.

use vstd::prelude::*;
use crate::error::{Field, ParseFailure};
use crate::pattern::{
    all_matches, first_match, pattern_captures, pattern_captures_all, required, required_text,
};
use crate::text::{parse_u32, parsed_u32};
use crate::utils::{hex_decoded, hex_to_utf16, timestamp_iso_8601, timestamp_to_iso_8601};

verus! {

/// The error of `chrono::DateTime::parse_from_rfc3339`, of which nothing is read here.
#[verifier::external_type_specification]
#[verifier::external_body]
pub struct ExTimestampError(chrono::ParseError);

/// The pattern of the reply to a read of one message: status (group 1), address in hex
/// (group 2), an empty field, the timestamp (group 3) and, on the next line, the content in
/// hex (group 4), then the line that ends a command with success.
pub const CMGR_PATTERN: &'static str =
    r#"\+CMGR: "([A-Z ]*)","([0-9A-F]*)","","(\d{2}/\d{2}/\d{2},\d{2}:\d{2}:\d{2}(?:-|\+)\d{0,3})"\r\n([0-9A-F]*)\r\n\r\nOK\r\n"#;

/// The pattern of one record of a listing: memory index (group 1), status, address in hex
/// (group 2), an empty field, the timestamp (group 3) and, on the next line, the content in
/// hex (group 4).
pub const CMGL_PATTERN: &'static str =
    r#"\+CMGL: (\d{0,3}),"[A-Z ]*","([0-9A-F]*)","","(\d{2}/\d{2}/\d{2},\d{2}:\d{2}:\d{2}(?:-|\+)\d{0,3})"\r\n([0-9A-F]*)\r\n"#;

/// A point in time, together with the offset from UTC of the clock that wrote it down.
#[derive(Clone, Copy, Debug, PartialEq, Eq, Structural)]
pub struct Timestamp {
    /// The whole seconds since 1970-01-01T00:00:00Z, leap seconds not counted.
    pub seconds: i64,
    /// The nanoseconds since the last whole second.
    pub nanoseconds: u32,
    /// The seconds by which the local clock is ahead of UTC.
    pub offset_seconds: i32,
}

/// The instant and offset that `chrono::DateTime::parse_from_rfc3339` reads from a text:
/// seconds since the epoch, nanoseconds of the second, and seconds of offset. `None` where
/// the text is refused.
pub uninterp spec fn rfc3339_instant(text: Seq<char>) -> Option<(i64, u32, i32)>;

/// The timestamp that an RFC 3339 text denotes.
pub open spec fn rfc3339_timestamp(text: Seq<char>) -> Option<Timestamp> {
    match rfc3339_instant(text) {
        Some((seconds, nanoseconds, offset_seconds)) => Some(
            Timestamp { seconds, nanoseconds, offset_seconds },
        ),
        None => None,
    }
}

/// Reads a date and time with `chrono::DateTime::parse_from_rfc3339` and takes from the
/// result its `timestamp`, its `timestamp_subsec_nanos` and the `local_minus_utc` of its
/// offset.
///
/// Trusted: the call fails exactly on the texts that chrono refuses, and else gives the
/// instant and the offset that chrono read. Nothing is claimed about which texts are
/// accepted or what they denote.
#[verifier::external_body]
fn parse_from_rfc3339(text: &str) -> (parsed: Result<Timestamp, chrono::ParseError>)
    ensures
        parsed is Ok == rfc3339_instant(text@) is Some,
        parsed matches Ok(t) ==> rfc3339_instant(text@) == Some(
            (t.seconds, t.nanoseconds, t.offset_seconds),
        ),
{
    let date_time = chrono::DateTime::parse_from_rfc3339(text)?;
    Ok(
        Timestamp {
            seconds: date_time.timestamp(),
            nanoseconds: date_time.timestamp_subsec_nanos(),
            offset_seconds: date_time.offset().local_minus_utc(),
        },
    )
}

/// Reads a date and time with explicit offset, as RFC 3339 writes it.
pub fn parse_timestamp(text: &str) -> (parsed: Result<Timestamp, ParseFailure>)
    ensures
        parsed == match rfc3339_timestamp(text@) {
            Some(t) => Ok::<Timestamp, ParseFailure>(t),
            None => Err::<Timestamp, ParseFailure>(ParseFailure::InvalidTimestamp),
        },
{
    match parse_from_rfc3339(text) {
        Ok(timestamp) => Ok(timestamp),
        Err(_) => Err(ParseFailure::InvalidTimestamp),
    }
}

/// A text message as the modem stores it.
#[derive(Debug)]
pub struct SmsMessage {
    mem_index: u32,
    address: String,
    content: String,
    timestamp: Timestamp,
}

/// What an `SmsMessage` holds.
pub struct SmsMessageView {
    pub mem_index: u32,
    pub address: Seq<char>,
    pub content: Seq<char>,
    pub timestamp: Timestamp,
}

impl View for SmsMessage {
    type V = SmsMessageView;

    closed spec fn view(&self) -> SmsMessageView {
        SmsMessageView {
            mem_index: self.mem_index,
            address: self.address@,
            content: self.content@,
            timestamp: self.timestamp,
        }
    }
}

impl DeepView for SmsMessage {
    type V = SmsMessageView;

    open spec fn deep_view(&self) -> SmsMessageView {
        self@
    }
}

/// What the result of reading one message holds.
pub open spec fn message_result(parsed: Result<SmsMessage, ParseFailure>) -> Result<
    SmsMessageView,
    ParseFailure,
> {
    match parsed {
        Ok(message) => Ok(message@),
        Err(e) => Err(e),
    }
}

/// What the result of reading a listing holds.
pub open spec fn listing_result(parsed: Result<Vec<SmsMessage>, ParseFailure>) -> Result<
    Seq<SmsMessageView>,
    ParseFailure,
> {
    match parsed {
        Ok(messages) => Ok(messages.deep_view()),
        Err(e) => Err(e),
    }
}

/// The message that the groups of a matched record spell, filed under `mem_index`: address
/// and content decoded from hex, the timestamp converted and read. The first step that
/// fails, in the order address, timestamp, content, gives the error.
pub open spec fn sms_record(mem_index: u32, groups: Seq<Option<Seq<char>>>) -> Result<
    SmsMessageView,
    ParseFailure,
> {
    match required_text(groups, 2, Field::Address) {
        Err(e) => Err(e),
        Ok(address_hex) => match hex_decoded(address_hex) {
            None => Err(ParseFailure::InvalidHex),
            Some(address) => match required_text(groups, 3, Field::Timestamp) {
                Err(e) => Err(e),
                Ok(token) => match timestamp_iso_8601(token) {
                    Err(e) => Err(e),
                    Ok(stamp) => match rfc3339_timestamp(stamp) {
                        None => Err(ParseFailure::InvalidTimestamp),
                        Some(timestamp) => match required_text(groups, 4, Field::Content) {
                            Err(e) => Err(e),
                            Ok(content_hex) => match hex_decoded(content_hex) {
                                None => Err(ParseFailure::InvalidHex),
                                Some(content) => Ok(
                                    SmsMessageView { mem_index, address, content, timestamp },
                                ),
                            },
                        },
                    },
                },
            },
        },
    }
}

/// The message that the reply to a read of one message holds.
pub open spec fn cmgr_message(raw: Seq<char>, mem_index: u32) -> Result<
    SmsMessageView,
    ParseFailure,
> {
    match pattern_captures(CMGR_PATTERN@, raw) {
        Err(e) => Err(e),
        Ok(None) => Err(ParseFailure::NoMatch),
        Ok(Some(groups)) => sms_record(mem_index, groups),
    }
}

/// The message that the groups of one record of a listing spell: as `sms_record`, filed
/// under the memory index that the record itself gives.
pub open spec fn listing_record(groups: Seq<Option<Seq<char>>>) -> Result<
    SmsMessageView,
    ParseFailure,
> {
    match required_text(groups, 1, Field::MemoryIndex) {
        Err(e) => Err(e),
        Ok(index) => match parsed_u32(index) {
            None => Err(ParseFailure::InvalidNumber),
            Some(mem_index) => sms_record(mem_index, groups),
        },
    }
}

/// The messages of the records of a listing, in the order of the records; or the error of
/// the first record that does not give a message.
pub open spec fn listing_messages(records: Seq<Seq<Option<Seq<char>>>>) -> Result<
    Seq<SmsMessageView>,
    ParseFailure,
>
    decreases records.len(),
{
    if records.len() == 0 {
        Ok(Seq::empty())
    } else {
        match listing_messages(records.drop_last()) {
            Err(e) => Err(e),
            Ok(messages) => match listing_record(records.last()) {
                Err(e) => Err(e),
                Ok(message) => Ok(messages.push(message)),
            },
        }
    }
}

/// The messages that the reply to a listing query holds.
pub open spec fn cmgl_messages(raw: Seq<char>) -> Result<Seq<SmsMessageView>, ParseFailure> {
    match pattern_captures_all(CMGL_PATTERN@, raw) {
        Err(e) => Err(e),
        Ok(records) => listing_messages(records),
    }
}

impl SmsMessage {
    /// Puts a message together from its parts.
    pub fn new(mem_index: u32, address: String, content: String, timestamp: Timestamp) -> (message:
        SmsMessage)
        ensures
            message@ == (SmsMessageView {
                mem_index,
                address: address@,
                content: content@,
                timestamp,
            }),
    {
        SmsMessage { mem_index, address, content, timestamp }
    }

    /// Builds the message that the groups of a matched record spell.
    pub fn from_captures(groups: &Vec<Option<String>>, mem_index: u32) -> (parsed: Result<
        SmsMessage,
        ParseFailure,
    >)
        ensures
            message_result(parsed) == sms_record(mem_index, groups.deep_view()),
    {
        let address_hex = match required(groups, 2, Field::Address) {
            Ok(address_hex) => address_hex,
            Err(e) => {
                return Err(e);
            },
        };
        let address = match hex_to_utf16(address_hex) {
            Ok(address) => address,
            Err(e) => {
                return Err(e);
            },
        };
        let token = match required(groups, 3, Field::Timestamp) {
            Ok(token) => token,
            Err(e) => {
                return Err(e);
            },
        };
        let timestamp_iso8601 = match timestamp_to_iso_8601(token) {
            Ok(timestamp_iso8601) => timestamp_iso8601,
            Err(e) => {
                return Err(e);
            },
        };
        let timestamp = match parse_timestamp(timestamp_iso8601.as_str()) {
            Ok(timestamp) => timestamp,
            Err(e) => {
                return Err(e);
            },
        };
        let content_hex = match required(groups, 4, Field::Content) {
            Ok(content_hex) => content_hex,
            Err(e) => {
                return Err(e);
            },
        };
        let content = match hex_to_utf16(content_hex) {
            Ok(content) => content,
            Err(e) => {
                return Err(e);
            },
        };
        Ok(SmsMessage::new(mem_index, address, content, timestamp))
    }

    /// Builds the message that the groups of one record of a listing spell, with the
    /// memory index that the record gives.
    pub fn from_listing_captures(groups: &Vec<Option<String>>) -> (parsed: Result<
        SmsMessage,
        ParseFailure,
    >)
        ensures
            message_result(parsed) == listing_record(groups.deep_view()),
    {
        let index = match required(groups, 1, Field::MemoryIndex) {
            Ok(index) => index,
            Err(e) => {
                return Err(e);
            },
        };
        match parse_u32(index) {
            Some(mem_index) => SmsMessage::from_captures(groups, mem_index),
            None => Err(ParseFailure::InvalidNumber),
        }
    }

    /// Takes the modem output of AT+CMGR (getting a single message) and returns a SmsMessages struct
    pub fn from_cmgr(raw_string: String, mem_index: u32) -> (parsed: Result<SmsMessage, ParseFailure>)
        ensures
            message_result(parsed) == cmgr_message(raw_string@, mem_index),
    {
        match first_match(CMGR_PATTERN, raw_string.as_str()) {
            Err(e) => Err(e),
            Ok(None) => Err(ParseFailure::NoMatch),
            Ok(Some(msg_captures)) => SmsMessage::from_captures(&msg_captures, mem_index),
        }
    }

    /// Takes the modem output of AT+CMGL (listing of multiple messages) and returns a vec of SmsMessages
    pub fn from_cmgl(raw_string: String) -> (parsed: Result<Vec<SmsMessage>, ParseFailure>)
        ensures
            listing_result(parsed) == cmgl_messages(raw_string@),
    {
        let msg_captures = match all_matches(CMGL_PATTERN, raw_string.as_str()) {
            Ok(msg_captures) => msg_captures,
            Err(e) => {
                return Err(e);
            },
        };
        let ghost records = msg_captures.deep_view();
        let mut messages: Vec<SmsMessage> = Vec::new();
        let mut i: usize = 0;
        proof {
            assert(messages.deep_view() =~= Seq::<SmsMessageView>::empty());
        }
        while i < msg_captures.len()
            invariant
                0 <= i <= msg_captures.len(),
                records == msg_captures.deep_view(),
                pattern_captures_all(CMGL_PATTERN@, raw_string@) == Ok::<
                    Seq<Seq<Option<Seq<char>>>>,
                    ParseFailure,
                >(records),
                listing_messages(records.take(i as int)) == Ok::<Seq<SmsMessageView>, ParseFailure>(
                    messages.deep_view(),
                ),
            decreases msg_captures.len() - i,
        {
            proof {
                assert(records.take(i + 1).drop_last() == records.take(i as int));
            }
            let ghost before = messages.deep_view();
            match SmsMessage::from_listing_captures(&msg_captures[i]) {
                Ok(message) => {
                    messages.push(message);
                    proof {
                        assert(messages.deep_view() =~= before.push(message@));
                    }
                },
                Err(e) => {
                    proof {
                        lemma_listing_error_stays(records, i + 1);
                    }
                    return Err(e);
                },
            }
            i = i + 1;
        }
        proof {
            assert(records.take(i as int) == records);
        }
        Ok(messages)
    }

    /// Returns the message memory index
    pub fn memory_index(&self) -> (mem_index: u32)
        ensures
            mem_index == self@.mem_index,
    {
        self.mem_index
    }

    /// Returns the message's associated address (phone number)
    pub fn address(&self) -> (address: String)
        ensures
            address@ == self@.address,
    {
        self.address.clone()
    }

    /// Returns the message content
    pub fn content(&self) -> (content: String)
        ensures
            content@ == self@.content,
    {
        self.content.clone()
    }

    /// Returns the message timestamp
    pub fn timestamp(&self) -> (timestamp: Timestamp)
        ensures
            timestamp == self@.timestamp,
    {
        self.timestamp
    }
}

/// Where the first `k` records of a listing fail, the whole listing fails with the same
/// error.
pub proof fn lemma_listing_error_stays(records: Seq<Seq<Option<Seq<char>>>>, k: int)
    requires
        0 <= k <= records.len(),
        listing_messages(records.take(k)) is Err,
    ensures
        listing_messages(records) == listing_messages(records.take(k)),
    decreases records.len() - k,
{
    if k < records.len() {
        assert(records.take(k + 1).drop_last() == records.take(k));
        lemma_listing_error_stays(records, k + 1);
    } else {
        assert(records.take(k) == records);
    }
}

} // verus!
