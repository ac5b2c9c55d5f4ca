//! The notifications that the modem sends of its own accord, and how a buffer is
//! classified as one of them.

use vstd::prelude::*;
use crate::constants::UnsolicitedResultCode;
use crate::error::{Field, ParseFailure};
use crate::pattern::{first_match, pattern_captures, required, required_text};
use crate::text::{parse_u32, parsed_u32};

verus! {

/// What the modem reports of its own accord.
#[derive(Debug)]
pub enum UnsolicitedEvent {
    /// The modem is ready to begin taking commands.
    ModemReady,
    /// A new message was stored in the given slot.
    MessageReceived { storage_index: u32 },
    /// A call is coming in.
    IncomingCall,
    /// A call was missed: the time by the modem's local clock, and who called.
    MissedCall { time: String, caller: String },
    /// The carrier is gone.
    CarrierLost,
    /// A voice call has begun.
    VoiceCallBegin,
    /// A voice call has ended after the given time, written `HHMMSS`.
    VoiceCallEnd { duration: String },
    /// The time zone of the network has changed to the given count of quarter hours.
    TimezoneChanged { quarter_hour_offset: i32 },
    /// The message storage is full.
    StorageFull,
}

/// What an `UnsolicitedEvent` holds.
pub enum UnsolicitedEventView {
    ModemReady,
    MessageReceived { storage_index: u32 },
    IncomingCall,
    MissedCall { time: Seq<char>, caller: Seq<char> },
    CarrierLost,
    VoiceCallBegin,
    VoiceCallEnd { duration: Seq<char> },
    TimezoneChanged { quarter_hour_offset: i32 },
    StorageFull,
}

impl View for UnsolicitedEvent {
    type V = UnsolicitedEventView;

    open spec fn view(&self) -> UnsolicitedEventView {
        match self {
            UnsolicitedEvent::ModemReady => UnsolicitedEventView::ModemReady,
            UnsolicitedEvent::MessageReceived { storage_index } => {
                UnsolicitedEventView::MessageReceived { storage_index: *storage_index }
            },
            UnsolicitedEvent::IncomingCall => UnsolicitedEventView::IncomingCall,
            UnsolicitedEvent::MissedCall { time, caller } => UnsolicitedEventView::MissedCall {
                time: time@,
                caller: caller@,
            },
            UnsolicitedEvent::CarrierLost => UnsolicitedEventView::CarrierLost,
            UnsolicitedEvent::VoiceCallBegin => UnsolicitedEventView::VoiceCallBegin,
            UnsolicitedEvent::VoiceCallEnd { duration } => UnsolicitedEventView::VoiceCallEnd {
                duration: duration@,
            },
            UnsolicitedEvent::TimezoneChanged { quarter_hour_offset } => {
                UnsolicitedEventView::TimezoneChanged { quarter_hour_offset: *quarter_hour_offset }
            },
            UnsolicitedEvent::StorageFull => UnsolicitedEventView::StorageFull,
        }
    }
}

/// What the result of reading one notification holds.
pub open spec fn event_result(found: Result<UnsolicitedEvent, ParseFailure>) -> Result<
    UnsolicitedEventView,
    ParseFailure,
> {
    match found {
        Ok(event) => Ok(event@),
        Err(e) => Err(e),
    }
}

/// What the result of a classification holds.
pub open spec fn classification_view(found: Result<Option<UnsolicitedEvent>, ParseFailure>)
    -> Result<Option<UnsolicitedEventView>, ParseFailure> {
    match found {
        Ok(Some(event)) => Ok(Some(event@)),
        Ok(None) => Ok(None),
        Err(e) => Err(e),
    }
}

/// The count that a group of digits denotes, where it fits a signed 32-bit count.
pub open spec fn parsed_count(digits: Seq<char>) -> Option<i32> {
    match parsed_u32(digits) {
        Some(n) => if n <= i32::MAX {
            Some(n as i32)
        } else {
            None
        },
        None => None,
    }
}

/// The event that a matched notification reports, with what its groups carry. A group that
/// is missing, or a number that cannot be read, gives the error.
pub open spec fn event_of(kind: UnsolicitedResultCode, groups: Seq<Option<Seq<char>>>) -> Result<
    UnsolicitedEventView,
    ParseFailure,
> {
    match kind {
        UnsolicitedResultCode::Ready => Ok(UnsolicitedEventView::ModemReady),
        UnsolicitedResultCode::CMTI => match required_text(groups, 1, Field::MemoryIndex) {
            Err(e) => Err(e),
            Ok(digits) => match parsed_u32(digits) {
                Some(storage_index) => Ok(UnsolicitedEventView::MessageReceived { storage_index }),
                None => Err(ParseFailure::InvalidNumber),
            },
        },
        UnsolicitedResultCode::Ring => Ok(UnsolicitedEventView::IncomingCall),
        UnsolicitedResultCode::MissedCall => match required_text(groups, 1, Field::Timestamp) {
            Err(e) => Err(e),
            Ok(time) => match required_text(groups, 2, Field::Address) {
                Err(e) => Err(e),
                Ok(caller) => Ok(UnsolicitedEventView::MissedCall { time, caller }),
            },
        },
        UnsolicitedResultCode::NoCarrier => Ok(UnsolicitedEventView::CarrierLost),
        UnsolicitedResultCode::VoiceCallBegin => Ok(UnsolicitedEventView::VoiceCallBegin),
        UnsolicitedResultCode::VoiceCallEnd => match required_text(groups, 1, Field::Value) {
            Err(e) => Err(e),
            Ok(duration) => Ok(UnsolicitedEventView::VoiceCallEnd { duration }),
        },
        UnsolicitedResultCode::TimeZoneChange => match required_text(groups, 1, Field::TimeZone) {
            Err(e) => Err(e),
            Ok(digits) => match parsed_count(digits) {
                Some(quarter_hour_offset) => Ok(
                    UnsolicitedEventView::TimezoneChanged { quarter_hour_offset },
                ),
                None => Err(ParseFailure::InvalidNumber),
            },
        },
        UnsolicitedResultCode::SmsFull => Ok(UnsolicitedEventView::StorageFull),
    }
}

/// What a buffer is classified as when only the notifications from place `start` of the
/// priority order on are tried: the event of the first whose pattern matches, `None` where
/// none matches, and an error where a pattern does not compile or the first match does not
/// give its event.
pub open spec fn classified_from(buffer: Seq<char>, start: int) -> Result<
    Option<UnsolicitedEventView>,
    ParseFailure,
>
    decreases UnsolicitedResultCode::priority().len() - start,
{
    if start < 0 || start >= UnsolicitedResultCode::priority().len() {
        Ok(None)
    } else {
        let kind = UnsolicitedResultCode::priority()[start];
        match pattern_captures(kind.pattern(), buffer) {
            Err(e) => Err(e),
            Ok(Some(groups)) => match event_of(kind, groups) {
                Ok(event) => Ok(Some(event)),
                Err(e) => Err(e),
            },
            Ok(None) => classified_from(buffer, start + 1),
        }
    }
}

/// What a buffer is classified as: every notification is tried against the whole buffer, in
/// the order of priority, and the first that matches decides.
pub open spec fn classified(buffer: Seq<char>) -> Result<Option<UnsolicitedEventView>, ParseFailure> {
    classified_from(buffer, 0)
}

/// Reads the event that a matched notification reports from the groups of the match.
pub fn event_from_captures(kind: UnsolicitedResultCode, groups: &Vec<Option<String>>) -> (found:
    Result<UnsolicitedEvent, ParseFailure>)
    ensures
        event_result(found) == event_of(kind, groups.deep_view()),
{
    match kind {
        UnsolicitedResultCode::Ready => Ok(UnsolicitedEvent::ModemReady),
        UnsolicitedResultCode::CMTI => {
            let digits = match required(groups, 1, Field::MemoryIndex) {
                Ok(digits) => digits,
                Err(e) => {
                    return Err(e);
                },
            };
            match parse_u32(digits) {
                Some(storage_index) => Ok(UnsolicitedEvent::MessageReceived { storage_index }),
                None => Err(ParseFailure::InvalidNumber),
            }
        },
        UnsolicitedResultCode::Ring => Ok(UnsolicitedEvent::IncomingCall),
        UnsolicitedResultCode::MissedCall => {
            let time = match required(groups, 1, Field::Timestamp) {
                Ok(time) => time,
                Err(e) => {
                    return Err(e);
                },
            };
            let caller = match required(groups, 2, Field::Address) {
                Ok(caller) => caller,
                Err(e) => {
                    return Err(e);
                },
            };
            Ok(
                UnsolicitedEvent::MissedCall {
                    time: String::from_str(time),
                    caller: String::from_str(caller),
                },
            )
        },
        UnsolicitedResultCode::NoCarrier => Ok(UnsolicitedEvent::CarrierLost),
        UnsolicitedResultCode::VoiceCallBegin => Ok(UnsolicitedEvent::VoiceCallBegin),
        UnsolicitedResultCode::VoiceCallEnd => {
            let duration = match required(groups, 1, Field::Value) {
                Ok(duration) => duration,
                Err(e) => {
                    return Err(e);
                },
            };
            Ok(UnsolicitedEvent::VoiceCallEnd { duration: String::from_str(duration) })
        },
        UnsolicitedResultCode::TimeZoneChange => {
            let digits = match required(groups, 1, Field::TimeZone) {
                Ok(digits) => digits,
                Err(e) => {
                    return Err(e);
                },
            };
            match parse_u32(digits) {
                Some(count) => {
                    if count <= i32::MAX as u32 {
                        Ok(UnsolicitedEvent::TimezoneChanged { quarter_hour_offset: count as i32 })
                    } else {
                        Err(ParseFailure::InvalidNumber)
                    }
                },
                None => Err(ParseFailure::InvalidNumber),
            }
        },
        UnsolicitedResultCode::SmsFull => Ok(UnsolicitedEvent::StorageFull),
    }
}

/// Tries the notifications against the whole buffer, in the order of priority, and reads
/// the event of the first that matches.
pub fn classify(buffer: &str) -> (found: Result<Option<UnsolicitedEvent>, ParseFailure>)
    ensures
        classification_view(found) == classified(buffer@),
{
    let urc_regex = UnsolicitedResultCode::get_regex_array();
    let mut i: usize = 0;
    while i < urc_regex.len()
        invariant
            0 <= i <= urc_regex.len(),
            urc_regex@.len() == UnsolicitedResultCode::priority().len(),
            forall|k: int|
                0 <= k < urc_regex@.len() ==> (#[trigger] urc_regex@[k]).0
                    == UnsolicitedResultCode::priority()[k] && urc_regex@[k].1@
                    == UnsolicitedResultCode::priority()[k].pattern(),
            classified(buffer@) == classified_from(buffer@, i as int),
        decreases urc_regex.len() - i,
    {
        let kind = urc_regex[i].0;
        let pattern = urc_regex[i].1;
        match first_match(pattern, buffer) {
            Err(e) => {
                return Err(e);
            },
            Ok(Some(cap)) => {
                return match event_from_captures(kind, &cap) {
                    Ok(event) => Ok(Some(event)),
                    Err(e) => Err(e),
                };
            },
            Ok(None) => {},
        }
        i = i + 1;
    }
    Ok(None)
}

/// The first match decides: where the patterns of all notifications before a place in the
/// priority order find nothing in a buffer, and the pattern at that place finds a match, the
/// buffer is classified by that match alone, whatever else it holds.
pub proof fn lemma_first_match_decides(
    buffer: Seq<char>,
    place: int,
    groups: Seq<Option<Seq<char>>>,
)
    requires
        0 <= place < UnsolicitedResultCode::priority().len(),
        forall|j: int|
            0 <= j < place ==> pattern_captures(
                (#[trigger] UnsolicitedResultCode::priority()[j]).pattern(),
                buffer,
            ) == Ok::<Option<Seq<Option<Seq<char>>>>, ParseFailure>(None),
        pattern_captures(UnsolicitedResultCode::priority()[place].pattern(), buffer) == Ok::<
            Option<Seq<Option<Seq<char>>>>,
            ParseFailure,
        >(Some(groups)),
    ensures
        classified(buffer) == match event_of(UnsolicitedResultCode::priority()[place], groups) {
            Ok(event) => Ok::<Option<UnsolicitedEventView>, ParseFailure>(Some(event)),
            Err(e) => Err::<Option<UnsolicitedEventView>, ParseFailure>(e),
        },
{
    lemma_skips_to(buffer, place, place);
}

/// Where the patterns before a place find nothing, the classification from any earlier
/// place on is the classification from that place on.
proof fn lemma_skips_to(buffer: Seq<char>, place: int, gap: int)
    requires
        0 <= gap <= place < UnsolicitedResultCode::priority().len(),
        forall|j: int|
            0 <= j < place ==> pattern_captures(
                (#[trigger] UnsolicitedResultCode::priority()[j]).pattern(),
                buffer,
            ) == Ok::<Option<Seq<Option<Seq<char>>>>, ParseFailure>(None),
    ensures
        classified_from(buffer, place - gap) == classified_from(buffer, place),
    decreases gap,
{
    if gap > 0 {
        lemma_skips_to(buffer, place, gap - 1);
    }
}

} // verus!
