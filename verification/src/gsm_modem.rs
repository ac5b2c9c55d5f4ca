//! The two halves of the engine: the demultiplexer, which frames what is read from the
//! line, and the correlator, which pairs each command with the reply that ends it.

use vstd::prelude::*;
use vstd::utf8::{decode_utf8, encode_utf8, valid_utf8};
use crate::constants::{
    error_text, ModemError, ModemErrorType, ModemErrorView, ResultCodes, ERROR_AND_CODE_PATTERN,
    OK_PATTERN,
};
use crate::error::{Field, ParseFailure};
use crate::pattern::{
    first_match, group_text, has_match, pattern_captures, pattern_matches, required,
};
use crate::text::parse_u32;
use crate::urc::{
    classified, classify, parsed_count, UnsolicitedEvent,
    UnsolicitedEventView,
};

verus! {

/// How the line to the modem is opened. It is set once and read only afterwards.
#[derive(Debug)]
pub struct Configuration {
    port_path: String,
    baud_rate: u32,
    read_timeout_millis: u64,
}

/// What a `Configuration` holds.
pub struct ConfigurationView {
    pub port_path: Seq<char>,
    pub baud_rate: u32,
    pub read_timeout_millis: u64,
}

impl View for Configuration {
    type V = ConfigurationView;

    closed spec fn view(&self) -> ConfigurationView {
        ConfigurationView {
            port_path: self.port_path@,
            baud_rate: self.baud_rate,
            read_timeout_millis: self.read_timeout_millis,
        }
    }
}

impl Configuration {
    /// The configuration of a line: the path of its port, its speed, and the time in
    /// milliseconds after which a read gives up.
    pub fn new(port_path: &str, baud_rate: u32, read_timeout_millis: u64) -> (configuration:
        Configuration)
        ensures
            configuration@ == (ConfigurationView {
                port_path: port_path@,
                baud_rate,
                read_timeout_millis,
            }),
    {
        Configuration { port_path: String::from_str(port_path), baud_rate, read_timeout_millis }
    }

    /// The path of the port.
    pub fn port_path(&self) -> (port_path: &str)
        ensures
            port_path@ == self@.port_path,
    {
        self.port_path.as_str()
    }

    /// The speed of the line in baud.
    pub fn baud_rate(&self) -> (baud_rate: u32)
        ensures
            baud_rate == self@.baud_rate,
    {
        self.baud_rate
    }

    /// The time in milliseconds after which a read gives up.
    pub fn read_timeout_millis(&self) -> (read_timeout_millis: u64)
        ensures
            read_timeout_millis == self@.read_timeout_millis,
    {
        self.read_timeout_millis
    }
}

/// The most bytes of text that the demultiplexer keeps while it waits for the end of a
/// frame.
pub const MAX_BUFFERED_BYTES: usize = 65536;

/// The pattern of a buffer that ends where a reply to a command ends: with the line of
/// success, with an error line with or without a code, or with the prompt for input.
pub const FRAME_END_PATTERN: &'static str =
    r"(?:\r\nOK\r\n|\r\nERROR\r\n|\r\n\+CM(?:E|S) ERROR: \d{1,3}\r\n|\r\n> )$";

/// What one chunk of bytes from the line completes.
#[derive(Debug)]
pub enum Frame {
    /// The buffer held a notification.
    Notification(UnsolicitedEvent),
    /// The buffer ended where a reply ends: the text is handed on as it stands.
    Response(String),
    /// Neither yet: the text is kept until more bytes come.
    Incomplete,
}

/// What a `Frame` holds.
pub enum FrameView {
    Notification(UnsolicitedEventView),
    Response(Seq<char>),
    Incomplete,
}

impl View for Frame {
    type V = FrameView;

    open spec fn view(&self) -> FrameView {
        match self {
            Frame::Notification(event) => FrameView::Notification(event@),
            Frame::Response(text) => FrameView::Response(text@),
            Frame::Incomplete => FrameView::Incomplete,
        }
    }
}

/// Why a chunk gave no frame.
#[derive(Clone, Copy, Debug, PartialEq, Eq, Structural)]
pub enum FrameError {
    /// The chunk is not well-formed UTF-8. It is dropped; the buffer is as before.
    InvalidEncoding,
    /// With the chunk the buffer would grow beyond `MAX_BUFFERED_BYTES`. Buffer and chunk
    /// are dropped.
    Overflow,
    /// The text could not be classified: a notification matched but did not give its event,
    /// or a pattern did not compile. The text is kept.
    Unclassifiable(ParseFailure),
}

impl FrameError {
    /// Whether the reader has to give up after the error. Bytes that are no text, and a
    /// buffer that overflows, show that the line no longer carries what the modem sends;
    /// a text that cannot be classified yet may still be completed by what follows.
    pub open spec fn fatal(self) -> bool {
        self == FrameError::InvalidEncoding || self == FrameError::Overflow
    }

    /// Tells whether the reader has to give up after the error.
    pub fn is_fatal(&self) -> (fatal: bool)
        ensures
            fatal == self.fatal(),
    {
        match self {
            FrameError::InvalidEncoding => true,
            FrameError::Overflow => true,
            FrameError::Unclassifiable(_) => false,
        }
    }
}

/// What the result of feeding a chunk holds.
pub open spec fn frame_result(frame: Result<Frame, FrameError>) -> Result<FrameView, FrameError> {
    match frame {
        Ok(frame) => Ok(frame@),
        Err(e) => Err(e),
    }
}

/// The number of bytes that a text takes on the line.
pub open spec fn byte_len(text: Seq<char>) -> nat {
    encode_utf8(text).len()
}

/// What becomes of a buffer when a text is appended to it: the buffer afterwards, and the
/// frame that was completed.
///
/// A text that would make the buffer too long empties it. Else the notifications are tried
/// against the whole buffer; a hit empties the buffer. Where none matches, a buffer that
/// ends as a reply ends is handed on whole and emptied. In every other case the buffer
/// keeps the text.
pub open spec fn fed(buffer: Seq<char>, text: Seq<char>) -> (Seq<char>, Result<FrameView, FrameError>) {
    if byte_len(buffer) + byte_len(text) > MAX_BUFFERED_BYTES {
        (Seq::empty(), Err(FrameError::Overflow))
    } else {
        let whole = buffer + text;
        match classified(whole) {
            Err(e) => (whole, Err(FrameError::Unclassifiable(e))),
            Ok(Some(event)) => (Seq::empty(), Ok(FrameView::Notification(event))),
            Ok(None) => match pattern_matches(FRAME_END_PATTERN@, whole) {
                Err(e) => (whole, Err(FrameError::Unclassifiable(e))),
                Ok(true) => (Seq::empty(), Ok(FrameView::Response(whole))),
                Ok(false) => (whole, Ok(FrameView::Incomplete)),
            },
        }
    }
}

/// What becomes of a buffer when a chunk of bytes arrives: bytes that are no UTF-8 change
/// nothing, all others are appended as the text that they encode.
pub open spec fn fed_bytes(buffer: Seq<char>, chunk: Seq<u8>) -> (
    Seq<char>,
    Result<FrameView, FrameError>,
) {
    if valid_utf8(chunk) {
        fed(buffer, decode_utf8(chunk))
    } else {
        (buffer, Err(FrameError::InvalidEncoding))
    }
}

/// Checks and reads bytes as UTF-8 with `core::str::from_utf8`.
///
/// Trusted: the call succeeds exactly on well-formed UTF-8, and the text that it gives is
/// made of the characters that the bytes encode.
#[verifier::external_body]
fn str_from_utf8(bytes: &[u8]) -> (text: Option<&str>)
    ensures
        text is Some == valid_utf8(bytes@),
        text matches Some(t) ==> t@ == decode_utf8(bytes@),
{
    core::str::from_utf8(bytes).ok()
}

/// Turns the chunks of bytes that are read from the line into frames: notifications, and
/// replies to commands.
pub struct FrameDemultiplexer {
    buffer: String,
}

impl View for FrameDemultiplexer {
    type V = Seq<char>;

    /// The text that waits for the end of its frame.
    closed spec fn view(&self) -> Seq<char> {
        self.buffer@
    }
}

impl FrameDemultiplexer {
    /// A demultiplexer with nothing buffered.
    pub fn new() -> (demux: FrameDemultiplexer)
        ensures
            demux@ == Seq::<char>::empty(),
    {
        FrameDemultiplexer { buffer: String::new() }
    }

    /// Appends a text to the buffer and says what the buffer completes.
    pub fn feed_text(&mut self, text: &str) -> (frame: Result<Frame, FrameError>)
        ensures
            (final(self)@, frame_result(frame)) == fed(old(self)@, text@),
    {
        let buffered = self.buffer.as_str().as_bytes().len();
        let added = text.as_bytes().len();
        if added > MAX_BUFFERED_BYTES || buffered > MAX_BUFFERED_BYTES - added {
            self.buffer = String::new();
            return Err(FrameError::Overflow);
        }
        self.buffer.append(text);
        match classify(self.buffer.as_str()) {
            Err(e) => Err(FrameError::Unclassifiable(e)),
            Ok(Some(event)) => {
                self.buffer = String::new();
                Ok(Frame::Notification(event))
            },
            Ok(None) => match has_match(FRAME_END_PATTERN, self.buffer.as_str()) {
                Err(e) => Err(FrameError::Unclassifiable(e)),
                Ok(true) => {
                    let whole = self.buffer.clone();
                    self.buffer = String::new();
                    Ok(Frame::Response(whole))
                },
                Ok(false) => Ok(Frame::Incomplete),
            },
        }
    }

    /// Takes a chunk of bytes as it was read from the line and says what the buffer
    /// completes with it.
    pub fn feed(&mut self, chunk: &[u8]) -> (frame: Result<Frame, FrameError>)
        ensures
            (final(self)@, frame_result(frame)) == fed_bytes(old(self)@, chunk@),
    {
        match str_from_utf8(chunk) {
            Some(text) => self.feed_text(text),
            None => Err(FrameError::InvalidEncoding),
        }
    }
}

/// The bytes of two texts are the bytes of the two together.
pub proof fn lemma_byte_len_adds(a: Seq<char>, b: Seq<char>)
    ensures
        byte_len(a + b) == byte_len(a) + byte_len(b),
    decreases a.len(),
{
    if a.len() == 0 {
    } else {
        assert((a + b).drop_first() == a.drop_first() + b);
        lemma_byte_len_adds(a.drop_first(), b);
    }
}

/// The buffer never outgrows its limit, whatever it held and whatever is fed.
pub proof fn lemma_buffer_is_bounded(buffer: Seq<char>, text: Seq<char>)
    ensures
        byte_len(fed(buffer, text).0) <= MAX_BUFFERED_BYTES,
{
    lemma_byte_len_adds(buffer, text);
}

/// A frame may come in pieces: where a first piece completes nothing, the second piece
/// gives what both pieces would have given in one.
pub proof fn lemma_split_chunk(buffer: Seq<char>, first: Seq<char>, second: Seq<char>)
    requires
        fed(buffer, first).1 == Ok::<FrameView, FrameError>(FrameView::Incomplete),
    ensures
        fed(fed(buffer, first).0, second) == fed(buffer, first + second),
{
    lemma_byte_len_adds(buffer, first);
    lemma_byte_len_adds(first, second);
    assert((buffer + first) + second == buffer + (first + second));
}

/// A notification takes the whole buffer with it: where the buffer with the new text is
/// classified as a notification, the event is given, the buffer is empty afterwards, and
/// what comes next is read as by a demultiplexer that has seen nothing yet.
pub proof fn lemma_notification_clears(
    buffer: Seq<char>,
    text: Seq<char>,
    event: UnsolicitedEventView,
    next: Seq<char>,
)
    requires
        byte_len(buffer) + byte_len(text) <= MAX_BUFFERED_BYTES,
        classified(buffer + text) == Ok::<Option<UnsolicitedEventView>, ParseFailure>(Some(event)),
    ensures
        fed(buffer, text) == (
            Seq::<char>::empty(),
            Ok::<FrameView, FrameError>(FrameView::Notification(event)),
        ),
        fed(fed(buffer, text).0, next) == fed(Seq::<char>::empty(), next),
{
}

/// How a command can fail.
#[derive(Debug)]
pub enum ModemOutcome {
    /// The modem answered with an error that carries category and code.
    Modem(ModemError),
    /// The modem answered with an error that carries no code.
    Generic,
    /// An answer, or a pattern to recognise it, could not be read.
    Protocol(ParseFailure),
    /// No answer ended the command in time.
    Timeout,
    /// The line itself failed.
    Transport,
    /// Another command is in flight.
    Busy,
    /// No command is in flight.
    Idle,
}

/// What a `ModemOutcome` holds.
pub enum ModemOutcomeView {
    Modem(ModemErrorView),
    Generic,
    Protocol(ParseFailure),
    Timeout,
    Transport,
    Busy,
    Idle,
}

impl View for ModemOutcome {
    type V = ModemOutcomeView;

    open spec fn view(&self) -> ModemOutcomeView {
        match self {
            ModemOutcome::Modem(error) => ModemOutcomeView::Modem(error@),
            ModemOutcome::Generic => ModemOutcomeView::Generic,
            ModemOutcome::Protocol(e) => ModemOutcomeView::Protocol(*e),
            ModemOutcome::Timeout => ModemOutcomeView::Timeout,
            ModemOutcome::Transport => ModemOutcomeView::Transport,
            ModemOutcome::Busy => ModemOutcomeView::Busy,
            ModemOutcome::Idle => ModemOutcomeView::Idle,
        }
    }
}

/// The command that is in flight: the patterns that end it, and what was received for it
/// so far.
pub struct PendingCommand {
    pub success: Seq<char>,
    pub error: Seq<char>,
    pub accumulated: Seq<char>,
}

/// What the result of a delivered frame holds.
pub open spec fn step_result(step: Result<Option<String>, ModemOutcome>) -> Result<
    Option<Seq<char>>,
    ModemOutcomeView,
> {
    match step {
        Ok(Some(text)) => Ok(Some(text@)),
        Ok(None) => Ok(None),
        Err(outcome) => Err(outcome@),
    }
}

/// The error that the groups of a matched error line spell: the category of group 1 and
/// the code of group 2, with the description that the tables give.
pub open spec fn structured_error(groups: Seq<Option<Seq<char>>>) -> ModemOutcomeView {
    match group_text(groups, 1) {
        None => ModemOutcomeView::Protocol(ParseFailure::MissingField(Field::Category)),
        Some(label) => match ModemErrorType::of_label(label) {
            None => ModemOutcomeView::Protocol(ParseFailure::UnknownCategory),
            Some(e_type) => match group_text(groups, 2) {
                None => ModemOutcomeView::Protocol(ParseFailure::MissingField(Field::Code)),
                Some(digits) => match parsed_count(digits) {
                    None => ModemOutcomeView::Protocol(ParseFailure::InvalidNumber),
                    Some(code) => ModemOutcomeView::Modem(
                        ModemErrorView { e_type, code, text: error_text(e_type, code) },
                    ),
                },
            },
        },
    }
}

/// The failure that an answer with an error in it stands for: the error with category and
/// code where the answer holds one, the error without code where it does not.
pub open spec fn decoded_error(answer: Seq<char>) -> ModemOutcomeView {
    match pattern_captures(ERROR_AND_CODE_PATTERN@, answer) {
        Err(e) => ModemOutcomeView::Protocol(e),
        Ok(None) => ModemOutcomeView::Generic,
        Ok(Some(groups)) => structured_error(groups),
    }
}

/// What the answer received so far means for the command: success with the whole answer
/// where the success pattern matches, else failure where the error pattern matches, else
/// nothing yet.
pub open spec fn correlated(success: Seq<char>, error: Seq<char>, answer: Seq<char>) -> Result<
    Option<Seq<char>>,
    ModemOutcomeView,
> {
    match pattern_matches(success, answer) {
        Err(e) => Err(ModemOutcomeView::Protocol(e)),
        Ok(true) => Ok(Some(answer)),
        Ok(false) => match pattern_matches(error, answer) {
            Err(e) => Err(ModemOutcomeView::Protocol(e)),
            Ok(true) => Err(decoded_error(answer)),
            Ok(false) => Ok(None),
        },
    }
}

/// The patterns that end a command: the pair that the caller chose, or the line of success
/// and the error lines with and without code.
pub open spec fn chosen_terminators(terminators: Option<(String, String)>) -> (
    Seq<char>,
    Seq<char>,
) {
    match terminators {
        Some((success, error)) => (success@, error@),
        None => (OK_PATTERN@, ResultCodes::error_catchall()),
    }
}

/// Reads the error with category and code from the groups of a matched error line.
pub fn error_from_captures(groups: &Vec<Option<String>>) -> (outcome: ModemOutcome)
    ensures
        outcome@ == structured_error(groups.deep_view()),
{
    let label = match required(groups, 1, Field::Category) {
        Ok(label) => label,
        Err(e) => {
            return ModemOutcome::Protocol(e);
        },
    };
    let error_type = match ModemErrorType::from_label(label) {
        Some(error_type) => error_type,
        None => {
            return ModemOutcome::Protocol(ParseFailure::UnknownCategory);
        },
    };
    let digits = match required(groups, 2, Field::Code) {
        Ok(digits) => digits,
        Err(e) => {
            return ModemOutcome::Protocol(e);
        },
    };
    match parse_u32(digits) {
        Some(code) => {
            if code <= i32::MAX as u32 {
                ModemOutcome::Modem(ModemError::new(error_type, code as i32))
            } else {
                ModemOutcome::Protocol(ParseFailure::InvalidNumber)
            }
        },
        None => ModemOutcome::Protocol(ParseFailure::InvalidNumber),
    }
}

/// Reads the failure that an answer with an error in it stands for.
pub fn decode_error(answer: &str) -> (outcome: ModemOutcome)
    ensures
        outcome@ == decoded_error(answer@),
{
    // If an error code was given, extract it
    match first_match(ERROR_AND_CODE_PATTERN, answer) {
        Err(e) => ModemOutcome::Protocol(e),
        Ok(None) => ModemOutcome::Generic,
        Ok(Some(capture)) => error_from_captures(&capture),
    }
}

/// Pairs each command with its answer. At most one command is in flight; the frames that
/// are delivered while it is are gathered until they end it.
pub struct Correlator {
    in_flight: bool,
    success: String,
    error: String,
    accumulated: String,
}

impl View for Correlator {
    type V = Option<PendingCommand>;

    /// The command in flight, if there is one.
    closed spec fn view(&self) -> Option<PendingCommand> {
        if self.in_flight {
            Some(
                PendingCommand {
                    success: self.success@,
                    error: self.error@,
                    accumulated: self.accumulated@,
                },
            )
        } else {
            None
        }
    }
}

impl Correlator {
    /// A correlator with no command in flight.
    pub fn new() -> (correlator: Correlator)
        ensures
            correlator@ is None,
    {
        Correlator {
            in_flight: false,
            success: String::new(),
            error: String::new(),
            accumulated: String::new(),
        }
    }

    /// Tells whether a command is in flight.
    pub fn is_busy(&self) -> (busy: bool)
        ensures
            busy == self@ is Some,
    {
        self.in_flight
    }

    /// Takes the slot for a command that is about to be written, with the patterns that
    /// end it. While a command is in flight no other can take the slot.
    pub fn begin(&mut self, terminators: Option<(String, String)>) -> (taken: Result<
        (),
        ModemOutcome,
    >)
        ensures
            old(self)@ is Some ==> final(self)@ == old(self)@ && taken matches Err(
                ModemOutcome::Busy,
            ),
            old(self)@ is None ==> taken is Ok && final(self)@ == Some(
                PendingCommand {
                    success: chosen_terminators(terminators).0,
                    error: chosen_terminators(terminators).1,
                    accumulated: Seq::<char>::empty(),
                },
            ),
    {
        if self.in_flight {
            return Err(ModemOutcome::Busy);
        }
        let (good_seq, error_seq) = match terminators {
            Some(end_seqs) => end_seqs,
            None => (
                String::from_str(ResultCodes::Okay.as_regex_str()),
                ResultCodes::get_error_catchall(),
            ),
        };
        self.in_flight = true;
        self.success = good_seq;
        self.error = error_seq;
        self.accumulated = String::new();
        Ok(())
    }

    /// Takes the next frame for the command in flight. The frame is added to what was
    /// received; the command ends with success or failure where that now matches one of
    /// its patterns, and the slot is free again. Else the command stays in flight.
    pub fn deliver(&mut self, frame: &str) -> (step: Result<Option<String>, ModemOutcome>)
        ensures
            old(self)@ is None ==> final(self)@ is None && step matches Err(ModemOutcome::Idle),
            old(self)@ matches Some(pending) ==> {
                let answer = pending.accumulated + frame@;
                &&& step_result(step) == correlated(pending.success, pending.error, answer)
                &&& final(self)@ == if step matches Ok(None) {
                    Some(PendingCommand { accumulated: answer, ..pending })
                } else {
                    None
                }
            },
    {
        if !self.in_flight {
            return Err(ModemOutcome::Idle);
        }
        self.accumulated.append(frame);
        match has_match(self.success.as_str(), self.accumulated.as_str()) {
            Err(e) => {
                self.release();
                Err(ModemOutcome::Protocol(e))
            },
            Ok(true) => {
                let recv_buf = self.accumulated.clone();
                self.release();
                Ok(Some(recv_buf))
            },
            Ok(false) => match has_match(self.error.as_str(), self.accumulated.as_str()) {
                Err(e) => {
                    self.release();
                    Err(ModemOutcome::Protocol(e))
                },
                Ok(true) => {
                    let outcome = decode_error(self.accumulated.as_str());
                    self.release();
                    Err(outcome)
                },
                Ok(false) => Ok(None),
            },
        }
    }

    /// Gives the command in flight up because no answer ended it in time. The slot is free
    /// afterwards.
    pub fn timeout(&mut self) -> (outcome: ModemOutcome)
        ensures
            final(self)@ is None,
            outcome@ == (if old(self)@ is Some {
                ModemOutcomeView::Timeout
            } else {
                ModemOutcomeView::Idle
            }),
    {
        let was_busy = self.in_flight;
        self.release();
        if was_busy {
            ModemOutcome::Timeout
        } else {
            ModemOutcome::Idle
        }
    }

    /// Gives the command in flight up because the line failed. The slot is free afterwards.
    pub fn transport_failed(&mut self) -> (outcome: ModemOutcome)
        ensures
            final(self)@ is None,
            outcome@ == (if old(self)@ is Some {
                ModemOutcomeView::Transport
            } else {
                ModemOutcomeView::Idle
            }),
    {
        let was_busy = self.in_flight;
        self.release();
        if was_busy {
            ModemOutcome::Transport
        } else {
            ModemOutcome::Idle
        }
    }

    /// Frees the slot and drops what was received.
    fn release(&mut self)
        ensures
            final(self)@ is None,
    {
        self.in_flight = false;
        self.success = String::new();
        self.error = String::new();
        self.accumulated = String::new();
    }
}

/// The answer to a command is the frames in their order, however the line cut them: where
/// a first frame leaves the command in flight, a second frame means for the command what
/// both frames in one would have meant.
pub proof fn lemma_frames_accumulate(
    success: Seq<char>,
    error: Seq<char>,
    accumulated: Seq<char>,
    first: Seq<char>,
    second: Seq<char>,
)
    requires
        correlated(success, error, accumulated + first) == Ok::<
            Option<Seq<char>>,
            ModemOutcomeView,
        >(None),
    ensures
        correlated(success, error, (accumulated + first) + second) == correlated(
            success,
            error,
            accumulated + (first + second),
        ),
{
    assert((accumulated + first) + second == accumulated + (first + second));
}

} // verus!
