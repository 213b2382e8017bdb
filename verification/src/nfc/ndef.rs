//! Minimal NDEF parsing for text records.
//!
//! A tag announces its NDEF message inside a TLV stream: a `0x03` tag byte,
//! a length, and the message bytes. [`NdefMessageParser`] extracts the
//! message block by block, [`parse_ndef_text_record`] reads the message as a
//! single text record, and [`NdefTextRecord::text`] strips the language code.

use vstd::prelude::*;
use vstd::string::*;
use vstd::utf8::*;

verus! {

/// The error `String::from_utf8` reports, carried along unread.
#[verifier::external_type_specification]
#[verifier::external_body]
pub struct ExFromUtf8Error(std::string::FromUtf8Error);

/// What `String::from_utf8` reports of bytes that are not UTF-8.
pub uninterp spec fn utf8_fault(bytes: Seq<u8>) -> std::string::FromUtf8Error;

/// `String::from_utf8`: succeeds exactly on valid UTF-8, and then gives the
/// characters that the bytes encode; the error is a function of the bytes.
pub assume_specification[ String::from_utf8 ](bytes: Vec<u8>) -> (text: Result<
    String,
    std::string::FromUtf8Error,
>)
    ensures
        text is Ok <==> valid_utf8(bytes@),
        text matches Ok(chars) ==> chars@ == decode_utf8(bytes@),
        text matches Err(error) ==> error == utf8_fault(bytes@),
;

/// Errors that can occur while parsing an NDEF record.
#[derive(Debug)]
#[non_exhaustive]
pub enum NdefError {
    /// The record ended before the named part.
    Truncated(&'static str),
    /// Chunked records are not supported.
    Chunked,
    /// The record does not use the well-known type name format.
    NotWellKnown,
    /// The record is not a text record.
    NotTextRecord,
    /// The text payload is not valid UTF-8.
    InvalidUtf8(std::string::FromUtf8Error),
}

/// What an [`NdefError`] says.
pub enum NdefFault {
    Truncated(Seq<char>),
    Chunked,
    NotWellKnown,
    NotTextRecord,
    InvalidUtf8(std::string::FromUtf8Error),
}

impl View for NdefError {
    type V = NdefFault;

    open spec fn view(&self) -> NdefFault {
        match self {
            NdefError::Truncated(part) => NdefFault::Truncated(part@),
            NdefError::Chunked => NdefFault::Chunked,
            NdefError::NotWellKnown => NdefFault::NotWellKnown,
            NdefError::NotTextRecord => NdefFault::NotTextRecord,
            NdefError::InvalidUtf8(error) => NdefFault::InvalidUtf8(*error),
        }
    }
}

/// The text shown for a fault.
pub open spec fn fault_message(fault: NdefFault) -> Seq<char> {
    match fault {
        NdefFault::Truncated(part) => "record is truncated: "@ + part + " missing"@,
        NdefFault::Chunked => "chunked records are not supported"@,
        NdefFault::NotWellKnown => "not a well-known payload type"@,
        NdefFault::NotTextRecord => "not a text record"@,
        NdefFault::InvalidUtf8(_) => "text payload is not valid UTF-8"@,
    }
}

impl NdefError {
    /// Returns the error's description.
    pub fn message(&self) -> (text: String)
        ensures
            text@ == fault_message(self@),
    {
        match self {
            NdefError::Truncated(part) => {
                let mut text = "record is truncated: ".to_owned();
                text.append(part);
                text.append(" missing");
                text
            },
            NdefError::Chunked => "chunked records are not supported".to_owned(),
            NdefError::NotWellKnown => "not a well-known payload type".to_owned(),
            NdefError::NotTextRecord => "not a text record".to_owned(),
            NdefError::InvalidUtf8(_) => "text payload is not valid UTF-8".to_owned(),
        }
    }
}

/// A parsed NDEF text record.
pub struct NdefTextRecord {
    value: Vec<u8>,
}

impl View for NdefTextRecord {
    type V = Seq<u8>;

    closed spec fn view(&self) -> Seq<u8> {
        self.value@
    }
}

/// Length of the language code that a text payload's status byte declares.
pub open spec fn language_code_length(status: u8) -> int {
    (status & 0b0011_1111) as int
}

/// The text inside a text record's payload: empty for an empty payload,
/// otherwise what follows the status byte and the language code.
pub open spec fn payload_text(payload: Seq<u8>) -> Result<Seq<char>, NdefFault> {
    if payload.len() == 0 {
        Ok(Seq::empty())
    } else if payload.len() < 1 + language_code_length(payload[0]) {
        Err(NdefFault::Truncated("text payload"@))
    } else {
        let text = payload.skip(1 + language_code_length(payload[0]));
        if valid_utf8(text) {
            Ok(decode_utf8(text))
        } else {
            Err(NdefFault::InvalidUtf8(utf8_fault(text)))
        }
    }
}

impl NdefTextRecord {
    /// Returns the record's text, stripped of its language code.
    ///
    /// # Errors
    ///
    /// Returns [`NdefError::Truncated`] if the payload ends inside the
    /// language code, and [`NdefError::InvalidUtf8`] if the text is not UTF-8.
    pub fn text(&self) -> (text: Result<String, NdefError>)
        ensures
            match text {
                Ok(text) => payload_text(self@) == Ok::<_, NdefFault>(text@),
                Err(error) => payload_text(self@) == Err::<Seq<char>, _>(error@),
            },
    {
        if self.value.len() == 0 {
            return Ok(String::new());
        }
        let status: u8 = self.value[0];
        assert(status & 0b0011_1111 <= 63) by (bit_vector);
        let start: usize = (status & 0b0011_1111) as usize + 1;
        if self.value.len() < start {
            return Err(NdefError::Truncated("text payload"));
        }
        let text = vstd::slice::slice_to_vec(
            vstd::slice::slice_subrange(self.value.as_slice(), start, self.value.len()),
        );
        assert(text@ =~= self@.skip(start as int));
        match String::from_utf8(text) {
            Ok(text) => Ok(text),
            Err(error) => Err(NdefError::InvalidUtf8(error)),
        }
    }
}

/// Whether a record's flags byte marks it as one chunk of several.
pub open spec fn is_chunked(flags: u8) -> bool {
    flags & 0b0010_0000 != 0
}

/// Whether a record's flags byte selects the one-byte payload length.
pub open spec fn is_short_record(flags: u8) -> bool {
    flags & 0b0001_0000 != 0
}

/// Whether a record's flags byte announces an ID length field.
pub open spec fn has_id_length(flags: u8) -> bool {
    flags & 0b0000_1000 != 0
}

/// The type name format in a record's flags byte.
pub open spec fn type_name_format(flags: u8) -> u8 {
    flags & 0b0000_0111
}

/// Offset just past the payload length field.
pub open spec fn length_end(record: Seq<u8>) -> int {
    if is_short_record(record[0]) {
        3
    } else {
        6
    }
}

/// The payload length a record declares, big-endian where it has four bytes.
pub open spec fn declared_payload_length(record: Seq<u8>) -> int {
    if is_short_record(record[0]) {
        record[2] as int
    } else {
        0x100_0000 * record[2] + 0x1_0000 * record[3] + 0x100 * record[4] + record[5]
    }
}

/// Offset of the type, just past the header's length fields.
pub open spec fn type_start(record: Seq<u8>) -> int {
    length_end(record) + if has_id_length(record[0]) {
        1int
    } else {
        0
    }
}

/// The ID length a record declares; zero without an ID length field.
pub open spec fn declared_id_length(record: Seq<u8>) -> int {
    if has_id_length(record[0]) {
        record[length_end(record)] as int
    } else {
        0
    }
}

/// Offset of the ID, just past the type.
pub open spec fn id_start(record: Seq<u8>) -> int {
    type_start(record) + record[1]
}

/// Offset of the payload, just past the ID.
pub open spec fn payload_start(record: Seq<u8>) -> int {
    id_start(record) + declared_id_length(record)
}

/// Offset just past the payload.
pub open spec fn payload_end(record: Seq<u8>) -> int {
    payload_start(record) + declared_payload_length(record)
}

/// The first fault of a record that is to be read as a text record, if any.
///
/// A part that is declared empty takes no room, so it is never the part that
/// is missing.
pub open spec fn text_record_fault(record: Seq<u8>) -> Option<NdefFault> {
    if record.len() < 1 {
        Some(NdefFault::Truncated("flags"@))
    } else if is_chunked(record[0]) {
        Some(NdefFault::Chunked)
    } else if record.len() < 2 {
        Some(NdefFault::Truncated("type length"@))
    } else if record.len() < length_end(record) {
        Some(NdefFault::Truncated("payload length"@))
    } else if record.len() < type_start(record) {
        Some(NdefFault::Truncated("ID length"@))
    } else if record.len() < id_start(record) {
        Some(NdefFault::Truncated("type"@))
    } else if record.len() < payload_start(record) {
        Some(NdefFault::Truncated("ID"@))
    } else if record.len() < payload_end(record) {
        Some(NdefFault::Truncated("payload"@))
    } else if type_name_format(record[0]) != 1 {
        Some(NdefFault::NotWellKnown)
    } else if record.subrange(type_start(record), id_start(record)) != seq![0x54u8] {
        Some(NdefFault::NotTextRecord)
    } else {
        None
    }
}

/// The payload of a text record without a fault.
pub open spec fn text_record_payload(record: Seq<u8>) -> Seq<u8> {
    record.subrange(payload_start(record), payload_end(record))
}

/// Joins four bytes, most significant first.
fn u32_from_be(a: u8, b: u8, c: u8, d: u8) -> (value: u32)
    ensures
        value == 0x100_0000 * a + 0x1_0000 * b + 0x100 * c + d,
{
    0x100_0000u32 * (a as u32) + 0x1_0000u32 * (b as u32) + 0x100u32 * (c as u32) + (d as u32)
}

/// Parses an NDEF message as a single text record.
///
/// # Errors
///
/// Returns an [`NdefError`] if the record is truncated, chunked, or not a
/// well-known text record.
pub fn parse_ndef_text_record(data: &[u8]) -> (record: Result<NdefTextRecord, NdefError>)
    ensures
        match record {
            Ok(record) => {
                &&& text_record_fault(data@) is None
                &&& record@ == text_record_payload(data@)
            },
            Err(error) => text_record_fault(data@) == Some(error@),
        },
{
    let record_length: usize = data.len();
    if record_length < 1 {
        return Err(NdefError::Truncated("flags"));
    }
    let flags: u8 = data[0];
    if flags & 0b0010_0000 != 0 {
        return Err(NdefError::Chunked);
    }
    if record_length < 2 {
        return Err(NdefError::Truncated("type length"));
    }
    let type_length: usize = data[1] as usize;
    let mut index: usize = 2;

    let payload_length: u32 = if flags & 0b0001_0000 != 0 {
        if record_length <= index {
            return Err(NdefError::Truncated("payload length"));
        }
        index = 3;
        data[2] as u32
    } else {
        if record_length <= index + 3 {
            return Err(NdefError::Truncated("payload length"));
        }
        index = 6;
        u32_from_be(data[2], data[3], data[4], data[5])
    };

    let id_length: usize = if flags & 0b0000_1000 != 0 {
        if record_length <= index {
            return Err(NdefError::Truncated("ID length"));
        }
        let id_length_index: usize = index;
        index = index + 1;
        data[id_length_index] as usize
    } else {
        0
    };

    let type_index: usize = index;
    if record_length - index < type_length {
        return Err(NdefError::Truncated("type"));
    }
    index = index + type_length;

    if record_length - index < id_length {
        return Err(NdefError::Truncated("ID"));
    }
    index = index + id_length;

    // Compared in u64 so a hostile length cannot overflow usize on 32-bit
    // targets.
    if payload_length as u64 > (record_length - index) as u64 {
        return Err(NdefError::Truncated("payload"));
    }
    if flags & 0b0000_0111 != 1 {
        return Err(NdefError::NotWellKnown);
    }
    let ghost payload_type = data@.subrange(type_start(data@), id_start(data@));
    if type_length != 1 || data[type_index] != 0x54 {
        assert(payload_type.len() == 1 ==> payload_type[0] != 0x54);
        return Err(NdefError::NotTextRecord);
    }
    assert(payload_type =~= seq![0x54u8]);
    let value = vstd::slice::slice_to_vec(
        vstd::slice::slice_subrange(data, index, index + payload_length as usize),
    );
    Ok(NdefTextRecord { value })
}

/// How far into the announcement of an NDEF message a parser has come.
#[derive(Clone, Copy, Debug)]
pub enum TlvPhase {
    /// Skipping ahead to the `0x03` that starts a message.
    Init,
    /// Expecting the length byte.
    Length,
    /// Expecting the high byte of a two-byte length.
    LongLength,
    /// Expecting the low byte of a two-byte length.
    LongLengthLow { high: u8 },
    /// Collecting the message.
    Value { length: u16 },
}

/// The state of an [`NdefMessageParser`].
pub struct TlvState {
    pub phase: TlvPhase,
    pub data: Seq<u8>,
}

impl TlvState {
    /// The state before any tag data.
    pub open spec fn start() -> TlvState {
        TlvState { phase: TlvPhase::Init, data: Seq::empty() }
    }

    /// Whether the length is known and as many bytes were collected.
    pub open spec fn done(self) -> bool {
        self.phase matches TlvPhase::Value { length } && self.data.len() == length
    }

    /// The state after one more byte.
    pub open spec fn after_byte(self, byte: u8) -> TlvState {
        match self.phase {
            TlvPhase::Init => TlvState {
                phase: if byte == 0x03 {
                    TlvPhase::Length
                } else {
                    TlvPhase::Init
                },
                ..self
            },
            TlvPhase::Length => TlvState {
                phase: if byte == 0xff {
                    TlvPhase::LongLength
                } else {
                    TlvPhase::Value { length: byte as u16 }
                },
                ..self
            },
            TlvPhase::LongLength => TlvState {
                phase: TlvPhase::LongLengthLow { high: byte },
                ..self
            },
            TlvPhase::LongLengthLow { high } => TlvState {
                phase: TlvPhase::Value { length: (0x100 * high + byte) as u16 },
                ..self
            },
            TlvPhase::Value { .. } => TlvState { data: self.data.push(byte), ..self },
        }
    }

    /// The state after a chunk: every byte in order, up to the one that
    /// completes the message.
    pub open spec fn after(self, chunk: Seq<u8>) -> TlvState
        decreases chunk.len(),
    {
        if self.done() || chunk.len() == 0 {
            self
        } else {
            self.after_byte(chunk[0]).after(chunk.drop_first())
        }
    }

    /// The state after feeding chunk after chunk.
    pub open spec fn fed(self, chunks: Seq<Seq<u8>>) -> TlvState
        decreases chunks.len(),
    {
        if chunks.len() == 0 {
            self
        } else {
            self.after(chunks[0]).fed(chunks.drop_first())
        }
    }
}

/// Incremental parser extracting an NDEF message from a tag's TLV stream.
///
/// Feed tag data block by block via [`add_data`](Self::add_data) until
/// [`is_done`](Self::is_done); the message bytes are then available through
/// [`data`](Self::data).
pub struct NdefMessageParser {
    phase: TlvPhase,
    data: Vec<u8>,
}

impl View for NdefMessageParser {
    type V = TlvState;

    closed spec fn view(&self) -> TlvState {
        TlvState { phase: self.phase, data: self.data@ }
    }
}

impl Default for NdefMessageParser {
    fn default() -> (parser: Self)
        ensures
            parser@ == TlvState::start(),
    {
        Self::new()
    }
}

impl NdefMessageParser {
    /// Creates a parser awaiting the start of an NDEF message.
    pub fn new() -> (parser: Self)
        ensures
            parser@ == TlvState::start(),
    {
        NdefMessageParser { phase: TlvPhase::Init, data: Vec::new() }
    }

    /// Feeds the next chunk of tag data into the parser.
    ///
    /// What follows the message is dropped.
    pub fn add_data(&mut self, data: &[u8])
        ensures
            final(self)@ == old(self)@.after(data@),
    {
        let mut index: usize = 0;
        assert(data@.skip(0) =~= data@);
        while index < data.len() && !self.is_done()
            invariant
                0 <= index <= data.len(),
                self@.after(data@.skip(index as int)) == old(self)@.after(data@),
            decreases data.len() - index,
        {
            let byte: u8 = data[index];
            let ghost rest = data@.skip(index as int);
            assert(rest[0] == byte);
            assert(rest.drop_first() =~= data@.skip(index + 1));
            let ghost before = self@;
            match self.phase {
                TlvPhase::Init => {
                    if byte == 0x03 {
                        self.phase = TlvPhase::Length;
                    }
                },
                TlvPhase::Length => {
                    if byte == 0xff {
                        self.phase = TlvPhase::LongLength;
                    } else {
                        self.phase = TlvPhase::Value { length: byte as u16 };
                    }
                },
                TlvPhase::LongLength => {
                    self.phase = TlvPhase::LongLengthLow { high: byte };
                },
                TlvPhase::LongLengthLow { high } => {
                    self.phase = TlvPhase::Value { length: 0x100u16 * (high as u16) + byte as u16 };
                },
                TlvPhase::Value { .. } => {
                    self.data.push(byte);
                },
            }
            assert(self@ == before.after_byte(byte));
            index = index + 1;
        }
        assert(index == data.len() ==> data@.skip(index as int) =~= Seq::<u8>::empty());
    }

    /// Returns the extracted message bytes.
    pub fn data(&self) -> (data: &[u8])
        ensures
            data@ == self@.data,
    {
        self.data.as_slice()
    }

    /// Reports whether the complete message has been extracted.
    pub fn is_done(&self) -> (done: bool)
        ensures
            done == self@.done(),
    {
        match self.phase {
            TlvPhase::Value { length } => self.data.len() == length as usize,
            _ => false,
        }
    }

    /// Reports whether the start of an NDEF message has been seen.
    pub fn has_started(&self) -> (started: bool)
        ensures
            started == !(self@.phase is Init),
    {
        !matches!(self.phase, TlvPhase::Init)
    }
}

/// The announcement of a message: its tag byte and its length, in one byte or
/// marked by `0xff` in two.
pub open spec fn tlv_header(message: Seq<u8>, long: bool) -> Seq<u8> {
    if long {
        seq![0x03u8, 0xffu8, (message.len() / 0x100) as u8, (message.len() % 0x100) as u8]
    } else {
        seq![0x03u8, message.len() as u8]
    }
}

/// The longest message that an announcement can carry.
pub open spec fn longest_message(long: bool) -> nat {
    if long {
        0xffff
    } else {
        0xfe
    }
}

/// It makes no difference whether tag data arrives in one chunk or in two.
pub proof fn law_chunks_join(state: TlvState, first: Seq<u8>, second: Seq<u8>)
    ensures
        state.after(first + second) == state.after(first).after(second),
    decreases first.len(),
{
    let joined = first + second;
    if first.len() == 0 {
        assert(joined =~= second);
    } else if !state.done() {
        assert(joined[0] == first[0]);
        assert(joined.drop_first() =~= first.drop_first() + second);
        law_chunks_join(state.after_byte(first[0]), first.drop_first(), second);
    }
}

/// Nor does it make one whether it arrives in any number of chunks.
pub proof fn law_any_chunks_join(state: TlvState, chunks: Seq<Seq<u8>>)
    ensures
        state.fed(chunks) == state.after(chunks.flatten()),
    decreases chunks.len(),
{
    if chunks.len() == 0 {
        assert(chunks.flatten() =~= Seq::<u8>::empty());
    } else {
        law_chunks_join(state, chunks[0], chunks.drop_first().flatten());
        law_any_chunks_join(state.after(chunks[0]), chunks.drop_first());
    }
}

/// Once the message is complete it stays so, whatever follows it.
pub proof fn law_stays_done(state: TlvState, chunk: Seq<u8>)
    requires
        state.done(),
    ensures
        state.after(chunk) == state,
{
}

/// Once the start of a message has been seen, it stays seen.
pub proof fn law_stays_started(state: TlvState, chunk: Seq<u8>)
    requires
        !(state.phase is Init),
    ensures
        !(state.after(chunk).phase is Init),
    decreases chunk.len(),
{
    if chunk.len() > 0 && !state.done() {
        law_stays_started(state.after_byte(chunk[0]), chunk.drop_first());
    }
}

/// Bytes before the first `0x03` leave a fresh parser as it was.
proof fn lemma_skips(prefix: Seq<u8>)
    requires
        !prefix.contains(0x03u8),
    ensures
        TlvState::start().after(prefix) == TlvState::start(),
    decreases prefix.len(),
{
    if prefix.len() > 0 {
        let rest = prefix.drop_first();
        assert(prefix[0] != 0x03);
        assert forall|i: int| 0 <= i < rest.len() implies rest[i] != 0x03u8 by {
            assert(rest[i] == prefix[i + 1]);
        }
        lemma_skips(rest);
    }
}

/// A parser that collects takes in every byte up to the last missing one.
proof fn lemma_collects(state: TlvState, length: u16, bytes: Seq<u8>)
    requires
        state.phase == (TlvPhase::Value { length }),
        state.data.len() + bytes.len() <= length,
    ensures
        state.after(bytes) == (TlvState { data: state.data + bytes, ..state }),
    decreases bytes.len(),
{
    if bytes.len() == 0 {
        assert(state.data + bytes =~= state.data);
    } else {
        let next = state.after_byte(bytes[0]);
        lemma_collects(next, length, bytes.drop_first());
        assert(next.data + bytes.drop_first() =~= state.data + bytes);
    }
}

/// The state after a message's announcement, and on the way there.
proof fn lemma_header(message: Seq<u8>, long: bool, count: int)
    requires
        message.len() <= longest_message(long),
        0 < count <= tlv_header(message, long).len(),
    ensures
        ({
            let header = tlv_header(message, long);
            let state = TlvState::start().after(header.take(count));
            &&& !(state.phase is Init)
            &&& if count < header.len() {
                !(state.phase is Value) && state.data == Seq::<u8>::empty()
            } else {
                state == TlvState {
                    phase: TlvPhase::Value { length: message.len() as u16 },
                    data: Seq::empty(),
                }
            }
        }),
{
    let header = tlv_header(message, long);
    reveal_with_fuel(TlvState::after, 6);
    assert(header.take(count).drop_first() =~= header.subrange(1, count));
    if count > 1 {
        assert(header.subrange(1, count).drop_first() =~= header.subrange(2, count));
        if count > 2 {
            assert(header.subrange(2, count).drop_first() =~= header.subrange(3, count));
            if count > 3 {
                assert(header.subrange(3, count).drop_first() =~= Seq::<u8>::empty());
            }
        }
    }
}

/// How much of an announced message is among so many bytes of the stream.
pub open spec fn message_part(
    prefix: Seq<u8>,
    message: Seq<u8>,
    long: bool,
    count: int,
) -> Seq<u8> {
    let seen = count - prefix.len() - tlv_header(message, long).len();
    if seen <= 0 {
        Seq::empty()
    } else if seen < message.len() {
        message.take(seen)
    } else {
        message
    }
}

/// How far a fresh parser is after so many bytes of a stream that announces a
/// message: it has seen the start once its `0x03` is among them, is done once
/// the whole message is, and always holds as much of the message as is.
pub proof fn law_progress_in_stream(
    prefix: Seq<u8>,
    message: Seq<u8>,
    long: bool,
    rest: Seq<u8>,
    count: int,
)
    requires
        !prefix.contains(0x03u8),
        message.len() <= longest_message(long),
        0 <= count <= prefix.len() + tlv_header(message, long).len() + message.len() + rest.len(),
    ensures
        ({
            let header = tlv_header(message, long);
            let state = TlvState::start().after((prefix + header + message + rest).take(count));
            &&& state.phase is Init <==> count <= prefix.len()
            &&& state.done() <==> count >= prefix.len() + header.len() + message.len()
            &&& state.data == message_part(prefix, message, long, count)
        }),
{
    let header = tlv_header(message, long);
    let start = TlvState::start();
    let part = (prefix + header + message + rest).take(count);
    if count <= prefix.len() {
        assert(part =~= prefix.take(count));
        assert(!part.contains(0x03u8)) by {
            if part.contains(0x03u8) {
                let i = choose|i: int| 0 <= i < part.len() && part[i] == 0x03u8;
                assert(prefix[i] == 0x03u8);
            }
        }
        lemma_skips(part);
    } else {
        let inner = part.skip(prefix.len() as int);
        lemma_skips(prefix);
        assert(part =~= prefix + inner);
        law_chunks_join(start, prefix, inner);
        let n = count - prefix.len();
        if n <= header.len() {
            assert(inner =~= header.take(n));
            lemma_header(message, long, n);
        } else {
            let bytes = inner.skip(header.len() as int);
            let collecting = start.after(header);
            let length = message.len() as u16;
            assert(header.take(header.len() as int) =~= header);
            lemma_header(message, long, header.len() as int);
            assert(inner =~= header + bytes);
            law_chunks_join(start, header, bytes);
            if bytes.len() <= message.len() {
                lemma_collects(collecting, length, bytes);
                assert(bytes =~= message.take(bytes.len() as int));
                assert(collecting.data + bytes =~= bytes);
                if bytes.len() == message.len() {
                    assert(bytes =~= message);
                }
            } else {
                let dropped = bytes.skip(message.len() as int);
                assert(bytes =~= message + dropped);
                lemma_collects(collecting, length, message);
                assert(collecting.data + message =~= message);
                law_chunks_join(collecting, message, dropped);
            }
        }
    }
}

/// A message is extracted from a tag's TLV stream however the stream is cut
/// into chunks: a fresh parser ends up done and with exactly the message,
/// whatever comes before its `0x03` and after its last byte.
pub proof fn law_message_is_extracted(
    prefix: Seq<u8>,
    message: Seq<u8>,
    long: bool,
    rest: Seq<u8>,
    chunks: Seq<Seq<u8>>,
)
    requires
        !prefix.contains(0x03u8),
        message.len() <= longest_message(long),
        chunks.flatten() == prefix + tlv_header(message, long) + message + rest,
    ensures
        TlvState::start().fed(chunks).done(),
        TlvState::start().fed(chunks).data == message,
{
    let stream = chunks.flatten();
    law_any_chunks_join(TlvState::start(), chunks);
    law_progress_in_stream(prefix, message, long, rest, stream.len() as int);
    assert(stream.take(stream.len() as int) =~= stream);
}

/// The payload of a text record in a language: the status byte, the language
/// code and the text.
pub open spec fn text_payload(language: Seq<u8>, text: Seq<char>) -> Seq<u8> {
    seq![language.len() as u8] + language + encode_utf8(text)
}

/// A single text record around a payload, with a payload length of one byte
/// or of four.
pub open spec fn text_record(payload: Seq<u8>, short: bool) -> Seq<u8> {
    let length = payload.len();
    if short {
        seq![0xd1u8, 0x01u8, length as u8, 0x54u8] + payload
    } else {
        seq![
            0xc1u8,
            0x01u8,
            (length / 0x100_0000) as u8,
            (length / 0x1_0000 % 0x100) as u8,
            (length / 0x100 % 0x100) as u8,
            (length % 0x100) as u8,
            0x54u8,
        ] + payload
    }
}

/// A text comes back out of its payload, stripped of its language code.
pub proof fn law_text_is_stripped(language: Seq<u8>, text: Seq<char>)
    requires
        language.len() <= 63,
    ensures
        payload_text(text_payload(language, text)) == Ok::<Seq<char>, NdefFault>(text),
{
    let payload = text_payload(language, text);
    let status = language.len() as u8;
    assert(status <= 63 ==> status & 0b0011_1111 == status) by (bit_vector);
    assert(payload[0] == status);
    assert(payload.skip(1int + language.len()) =~= encode_utf8(text));
    encode_utf8_valid_utf8(text);
    encode_utf8_decode_utf8(text);
}

/// A text record's payload comes back out of the record, in the short and in
/// the long form, whatever follows the record.
pub proof fn law_text_record_is_read(payload: Seq<u8>, short: bool, rest: Seq<u8>)
    requires
        payload.len() < if short {
            0x100nat
        } else {
            0x1_0000_0000
        },
    ensures
        text_record_fault(text_record(payload, short) + rest) is None,
        text_record_payload(text_record(payload, short) + rest) == payload,
{
    let record = text_record(payload, short) + rest;
    let length = payload.len();
    assert(0xd1u8 & 0b0010_0000 == 0 && 0xd1u8 & 0b0001_0000 != 0 && 0xd1u8 & 0b0000_1000 == 0
        && 0xd1u8 & 0b0000_0111 == 1 && 0xc1u8 & 0b0010_0000 == 0 && 0xc1u8 & 0b0001_0000 == 0
        && 0xc1u8 & 0b0000_1000 == 0 && 0xc1u8 & 0b0000_0111 == 1) by (bit_vector);
    assert(declared_payload_length(record) == length);
    assert(record.subrange(type_start(record), id_start(record)) =~= seq![0x54u8]);
    assert(text_record_payload(record) =~= payload);
}

} // verus!
