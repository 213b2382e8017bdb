//! Plain values of the Bloop wire protocol and their wire forms.
//!
//! The layout itself is the protocol crate's; this module holds the values
//! that the client's rules read, and the calls that put them on the wire and
//! take them off it.

use bloop_protocol::frame::RawMessage as Frame;
use bloop_protocol::message as wire;
use bloop_protocol::set::{decode_message, encode_message, MessageSetError as SetError};
use vstd::prelude::*;
use vstd::utf8::encode_utf8;

verus! {

/// Why a payload failed to decode, carried along unread.
#[verifier::external_type_specification]
#[verifier::external_body]
pub struct ExDecodeError(bloop_protocol::codec::DecodeError);

/// Why a message failed to encode, carried along unread.
#[verifier::external_type_specification]
#[verifier::external_body]
pub struct ExEncodeError(bloop_protocol::codec::EncodeError);

/// A raw protocol frame with an opcode and an undecoded payload.
#[derive(Debug, Eq, PartialEq)]
pub struct RawMessage {
    /// Opcode identifying the message's purpose.
    pub message_type: u8,
    /// Undecoded payload bytes.
    pub payload: Vec<u8>,
}

impl Clone for RawMessage {
    fn clone(&self) -> (copy: Self)
        ensures
            copy.message_type == self.message_type,
            copy.payload@ == self.payload@,
    {
        let payload = self.payload.clone();
        assert(payload@ =~= self.payload@);
        RawMessage { message_type: self.message_type, payload }
    }
}

/// An NFC UID of one of the standard lengths.
#[derive(Clone, Copy, Debug, Eq, PartialEq)]
pub enum NfcUid {
    /// 4-byte UID.
    Single([u8; 4]),
    /// 7-byte UID.
    Double([u8; 7]),
    /// 10-byte UID.
    Triple([u8; 10]),
}

impl View for NfcUid {
    type V = Seq<u8>;

    open spec fn view(&self) -> Seq<u8> {
        match self {
            NfcUid::Single(bytes) => bytes@,
            NfcUid::Double(bytes) => bytes@,
            NfcUid::Triple(bytes) => bytes@,
        }
    }
}

/// Whether a number of bytes is a standard UID length.
pub open spec fn is_uid_length(length: nat) -> bool {
    length == 4 || length == 7 || length == 10
}

/// `bloop_protocol::NfcUid::try_from` on a byte slice: takes exactly the
/// standard lengths and keeps the bytes.
#[verifier::external_body]
fn uid_from_slice(bytes: &[u8]) -> (uid: Option<NfcUid>)
    ensures
        uid is Some <==> is_uid_length(bytes@.len()),
        uid matches Some(uid) ==> uid@ == bytes@,
{
    match bloop_protocol::NfcUid::try_from(bytes) {
        Ok(bloop_protocol::NfcUid::Single(bytes)) => Some(NfcUid::Single(bytes)),
        Ok(bloop_protocol::NfcUid::Double(bytes)) => Some(NfcUid::Double(bytes)),
        Ok(bloop_protocol::NfcUid::Triple(bytes)) => Some(NfcUid::Triple(bytes)),
        Err(_) => None,
    }
}

impl NfcUid {
    /// Builds a UID from its bytes; `None` unless there are 4, 7 or 10.
    pub fn from_bytes(bytes: &[u8]) -> (uid: Option<NfcUid>)
        ensures
            uid is Some <==> is_uid_length(bytes@.len()),
            uid matches Some(uid) ==> uid@ == bytes@,
    {
        uid_from_slice(bytes)
    }

    /// Returns the UID's bytes.
    pub fn as_bytes(&self) -> (bytes: &[u8])
        ensures
            bytes@ == self@,
    {
        match self {
            NfcUid::Single(bytes) => bytes.as_slice(),
            NfcUid::Double(bytes) => bytes.as_slice(),
            NfcUid::Triple(bytes) => bytes.as_slice(),
        }
    }
}

/// An opaque hash over associated data, such as an audio file.
///
/// A hash has between 1 and 255 bytes; absence is `Option::None`.
#[derive(Debug, Eq, PartialEq)]
pub struct DataHash {
    bytes: Vec<u8>,
}

/// Whether a number of bytes is a possible hash length.
pub open spec fn is_hash_length(length: nat) -> bool {
    1 <= length <= 255
}

impl View for DataHash {
    type V = Seq<u8>;

    closed spec fn view(&self) -> Seq<u8> {
        self.bytes@
    }
}

/// `bloop_protocol::DataHash::try_from` on a byte vector: takes exactly 1 to
/// 255 bytes and keeps them.
#[verifier::external_body]
fn hash_bytes(bytes: Vec<u8>) -> (hash: Option<Vec<u8>>)
    ensures
        hash is Some <==> is_hash_length(bytes@.len()),
        hash matches Some(hash) ==> hash@ == bytes@,
{
    match bloop_protocol::DataHash::try_from(bytes) {
        Ok(hash) => Some(hash.as_bytes().to_vec()),
        Err(_) => None,
    }
}

/// `Display` of `bloop_protocol::DataHash`: two lower-case hexadecimal
/// digits per byte.
#[verifier::external_body]
fn hash_text(bytes: &[u8]) -> (text: String)
    requires
        is_hash_length(bytes@.len()),
    ensures
        text@ == crate::text::hex(bytes@),
{
    bloop_protocol::DataHash::try_from(bytes).expect("length checked").to_string()
}

impl Clone for DataHash {
    fn clone(&self) -> (copy: Self)
        ensures
            copy@ == self@,
    {
        proof {
            use_type_invariant(self);
        }
        let bytes = self.bytes.clone();
        assert(bytes@ =~= self.bytes@);
        DataHash { bytes }
    }
}

impl DataHash {
    #[verifier::type_invariant]
    spec fn has_hash_length(&self) -> bool {
        is_hash_length(self.bytes@.len())
    }

    /// Builds a hash from its bytes; `None` unless there are 1 to 255.
    pub fn from_bytes(bytes: Vec<u8>) -> (hash: Option<DataHash>)
        ensures
            hash is Some <==> is_hash_length(bytes@.len()),
            hash matches Some(hash) ==> hash@ == bytes@,
    {
        match hash_bytes(bytes) {
            Some(bytes) => Some(DataHash { bytes }),
            None => None,
        }
    }

    /// Returns the hash's bytes.
    pub fn as_bytes(&self) -> (bytes: &[u8])
        ensures
            bytes@ == self@,
            is_hash_length(self@.len()),
    {
        proof {
            use_type_invariant(self);
        }
        self.bytes.as_slice()
    }

    /// Returns the hash in hexadecimal.
    pub fn text(&self) -> (text: String)
        ensures
            text@ == crate::text::hex(self@),
            is_hash_length(self@.len()),
    {
        hash_text(self.as_bytes())
    }
}

/// An awarded achievement together with its optional audio hash.
#[derive(Debug, Eq, PartialEq)]
pub struct AchievementRecord {
    /// Unique ID of the achievement.
    pub id: [u8; 16],
    /// Audio file hash; absent when no audio is available.
    pub audio_hash: Option<DataHash>,
}

impl Clone for AchievementRecord {
    fn clone(&self) -> (copy: Self)
        ensures
            copy@ == self@,
    {
        let audio_hash = match &self.audio_hash {
            Some(hash) => Some(hash.clone()),
            None => None,
        };
        AchievementRecord { id: self.id, audio_hash }
    }
}

/// The bytes an [`AchievementRecord`] stands for.
pub struct RecordModel {
    pub id: Seq<u8>,
    pub audio_hash: Option<Seq<u8>>,
}

/// The bytes of an optional hash.
pub open spec fn hash_model(hash: Option<DataHash>) -> Option<Seq<u8>> {
    match hash {
        Some(hash) => Some(hash@),
        None => None,
    }
}

impl View for AchievementRecord {
    type V = RecordModel;

    open spec fn view(&self) -> RecordModel {
        RecordModel { id: self.id@, audio_hash: hash_model(self.audio_hash) }
    }
}

/// The bytes of every record of a list.
pub open spec fn record_models(records: Seq<AchievementRecord>) -> Seq<RecordModel> {
    records.map_values(|record: AchievementRecord| record@)
}

/// An error reported by the server.
///
/// Codes without a dedicated variant, including reserved ones a later minor
/// protocol version may define, are `Custom`.
#[derive(Clone, Copy, Debug, Eq, PartialEq, Structural)]
#[non_exhaustive]
pub enum ErrorResponse {
    /// Unexpected message sent by the peer (fatal).
    UnexpectedMessage,
    /// Sent message does not follow the protocol (fatal).
    MalformedMessage,
    /// Requested version range is not supported (fatal).
    UnsupportedVersionRange,
    /// Invalid credentials sent in authentication (fatal).
    InvalidCredentials,
    /// The NFC UID is unknown.
    UnknownNfcUid,
    /// The NFC UID is recognized but throttled.
    NfcUidThrottled,
    /// No audio file is available for the given achievement.
    AudioUnavailable,
    /// An error code without a dedicated variant.
    Custom(u8),
}

/// The error that a wire code stands for.
pub open spec fn error_of_code(code: u8) -> ErrorResponse {
    if code == 0 {
        ErrorResponse::UnexpectedMessage
    } else if code == 1 {
        ErrorResponse::MalformedMessage
    } else if code == 2 {
        ErrorResponse::UnsupportedVersionRange
    } else if code == 3 {
        ErrorResponse::InvalidCredentials
    } else if code == 4 {
        ErrorResponse::UnknownNfcUid
    } else if code == 5 {
        ErrorResponse::NfcUidThrottled
    } else if code == 6 {
        ErrorResponse::AudioUnavailable
    } else {
        ErrorResponse::Custom(code)
    }
}

/// Whether the server closes the connection after sending the error.
pub open spec fn is_fatal_error(error: ErrorResponse) -> bool {
    ||| error is UnexpectedMessage
    ||| error is MalformedMessage
    ||| error is UnsupportedVersionRange
    ||| error is InvalidCredentials
}

/// `bloop_protocol::ErrorResponse::is_fatal`: true of the four errors after
/// which the server closes the connection.
#[verifier::external_body]
fn error_is_fatal(error: &ErrorResponse) -> (fatal: bool)
    ensures
        fatal == is_fatal_error(*error),
{
    match error {
        ErrorResponse::UnexpectedMessage => wire::ErrorResponse::UnexpectedMessage,
        ErrorResponse::MalformedMessage => wire::ErrorResponse::MalformedMessage,
        ErrorResponse::UnsupportedVersionRange => wire::ErrorResponse::UnsupportedVersionRange,
        ErrorResponse::InvalidCredentials => wire::ErrorResponse::InvalidCredentials,
        ErrorResponse::UnknownNfcUid => wire::ErrorResponse::UnknownNfcUid,
        ErrorResponse::NfcUidThrottled => wire::ErrorResponse::NfcUidThrottled,
        ErrorResponse::AudioUnavailable => wire::ErrorResponse::AudioUnavailable,
        ErrorResponse::Custom(code) => wire::ErrorResponse::Custom(*code),
    }.is_fatal()
}

impl ErrorResponse {
    /// Maps a wire code onto its error, falling back to `Custom`.
    pub fn from_code(code: u8) -> (error: ErrorResponse)
        ensures
            error == error_of_code(code),
    {
        match code {
            0 => ErrorResponse::UnexpectedMessage,
            1 => ErrorResponse::MalformedMessage,
            2 => ErrorResponse::UnsupportedVersionRange,
            3 => ErrorResponse::InvalidCredentials,
            4 => ErrorResponse::UnknownNfcUid,
            5 => ErrorResponse::NfcUidThrottled,
            6 => ErrorResponse::AudioUnavailable,
            _ => ErrorResponse::Custom(code),
        }
    }

    /// Returns whether the server closes the connection after the error.
    pub fn is_fatal(&self) -> (fatal: bool)
        ensures
            fatal == is_fatal_error(*self),
    {
        error_is_fatal(self)
    }
}

/// The capabilities a server declares, as the bits of its handshake.
#[derive(Clone, Copy, Debug, Eq, PartialEq, Structural)]
pub struct Capabilities {
    pub bits: u64,
}

/// A network address, as its octets.
#[derive(Clone, Copy, Debug, Eq, PartialEq)]
pub enum IpAddress {
    V4([u8; 4]),
    V6([u8; 16]),
}

/// Why a raw frame is not the message it was to be decoded as.
#[derive(Debug)]
pub enum MessageSetError {
    /// The frame carries another opcode.
    UnknownOpcode(u8),
    /// The opcode matched, but the payload does not decode.
    Malformed {
        opcode: u8,
        source: bloop_protocol::codec::DecodeError,
    },
}

/// Opcode of the error response.
pub const ERROR_RESPONSE: u8 = 0x00;

/// Opcode of the client handshake.
pub const CLIENT_HANDSHAKE: u8 = 0x01;

/// Opcode of the server handshake.
pub const SERVER_HANDSHAKE: u8 = 0x02;

/// Opcode of the authentication.
pub const AUTHENTICATION: u8 = 0x03;

/// Opcode of the accepted authentication.
pub const AUTHENTICATION_ACCEPTED: u8 = 0x04;

/// Opcode of the ping.
pub const PING: u8 = 0x05;

/// Opcode of the pong.
pub const PONG: u8 = 0x06;

/// Opcode of the announced disconnect.
pub const QUIT: u8 = 0x07;

/// Opcode of the bloop.
pub const BLOOP: u8 = 0x08;

/// Opcode of the accepted bloop.
pub const BLOOP_ACCEPTED: u8 = 0x09;

/// Opcode of the audio request.
pub const RETRIEVE_AUDIO: u8 = 0x0a;

/// Opcode of the audio data.
pub const AUDIO_DATA: u8 = 0x0b;

/// Opcode of the preload check.
pub const PRELOAD_CHECK: u8 = 0x0c;

/// Opcode of the preload match.
pub const PRELOAD_MATCH: u8 = 0x0d;

/// Opcode of the preload mismatch.
pub const PRELOAD_MISMATCH: u8 = 0x0e;

/// A number as four bytes, least significant first.
pub open spec fn le_u32(value: nat) -> Seq<u8> {
    seq![
        (value % 0x100) as u8,
        (value / 0x100 % 0x100) as u8,
        (value / 0x1_0000 % 0x100) as u8,
        (value / 0x100_0000 % 0x100) as u8,
    ]
}

/// A number as eight bytes, least significant first.
pub open spec fn le_u64(value: nat) -> Seq<u8> {
    le_u32(value % 0x1_0000_0000) + le_u32(value / 0x1_0000_0000)
}

/// The wire form of a string: its UTF-8 length and its UTF-8 bytes.
pub open spec fn string_wire(text: Seq<char>) -> Seq<u8> {
    seq![encode_utf8(text).len() as u8] + encode_utf8(text)
}

/// The wire form of an optional hash: its length, zero if absent, and its
/// bytes.
pub open spec fn hash_wire(hash: Option<Seq<u8>>) -> Seq<u8> {
    match hash {
        Some(hash) => seq![hash.len() as u8] + hash,
        None => seq![0u8],
    }
}

/// The wire form of a network address: its version and its octets.
pub open spec fn ip_wire(address: IpAddress) -> Seq<u8> {
    match address {
        IpAddress::V4(octets) => seq![4u8] + octets@,
        IpAddress::V6(octets) => seq![6u8] + octets@,
    }
}

/// Whether a record can be put on the wire.
pub open spec fn is_record(record: RecordModel) -> bool {
    &&& record.id.len() == 16
    &&& record.audio_hash matches Some(hash) ==> is_hash_length(hash.len())
}

/// Whether every record of a list can be put on the wire.
pub open spec fn are_records(records: Seq<RecordModel>) -> bool {
    forall|i: int| 0 <= i < records.len() ==> is_record(#[trigger] records[i])
}

/// The wire form of a list of records, one after the other.
pub open spec fn records_wire(records: Seq<RecordModel>) -> Seq<u8>
    decreases records.len(),
{
    if records.len() == 0 {
        Seq::empty()
    } else {
        records[0].id + hash_wire(records[0].audio_hash) + records_wire(records.drop_first())
    }
}

/// The payload of an accepted bloop.
pub open spec fn bloop_accepted_wire(records: Seq<RecordModel>) -> Seq<u8> {
    seq![records.len() as u8] + records_wire(records)
}

/// The payload of a preload mismatch.
pub open spec fn preload_mismatch_wire(hash: Seq<u8>, records: Seq<RecordModel>) -> Seq<u8> {
    hash_wire(Some(hash)) + le_u32(records.len()) + records_wire(records)
}

/// What an accepted bloop can carry.
pub open spec fn is_bloop_accepted(records: Seq<RecordModel>) -> bool {
    are_records(records) && records.len() <= 0xff
}

/// What a preload mismatch can carry.
pub open spec fn is_preload_mismatch(hash: Seq<u8>, records: Seq<RecordModel>) -> bool {
    is_hash_length(hash.len()) && are_records(records) && records.len() <= 0xffff_ffff
}

/// Why a payload does not decode as the message of an opcode: what
/// `bloop_protocol::set::decode_message` reports of it. Each of the messages
/// decoded here has an opcode of its own.
pub uninterp spec fn decode_fault(opcode: u8, payload: Seq<u8>) -> bloop_protocol::codec::DecodeError;

/// Why credentials that do not fit their length prefixes do not encode: what
/// `bloop_protocol::set::encode_message` reports of them.
pub uninterp spec fn authentication_fault(
    client_id: Seq<char>,
    client_secret: Seq<char>,
) -> bloop_protocol::codec::EncodeError;

/// What decoding a frame as the message of an opcode reports as an error: the
/// frame's opcode if it is another one, else the given fault of the payload.
pub open spec fn decode_failure(
    raw: RawMessage,
    opcode: u8,
    source: bloop_protocol::codec::DecodeError,
) -> MessageSetError {
    if raw.message_type != opcode {
        MessageSetError::UnknownOpcode(raw.message_type)
    } else {
        MessageSetError::Malformed { opcode, source }
    }
}

/// The payload of a server handshake.
pub open spec fn server_handshake_wire(version: u8, capabilities: u64) -> Seq<u8> {
    seq![version] + le_u64(capabilities as nat)
}

/// The payload of audio data.
pub open spec fn audio_data_wire(data: Seq<u8>) -> Seq<u8> {
    le_u32(data.len()) + data
}

/// What audio data can carry.
pub open spec fn is_audio_data(data: Seq<u8>) -> bool {
    data.len() <= 0xffff_ffff
}

/// The payload of an authentication.
pub open spec fn authentication_wire(
    client_id: Seq<char>,
    client_secret: Seq<char>,
    address: IpAddress,
) -> Seq<u8> {
    string_wire(client_id) + string_wire(client_secret) + ip_wire(address)
}

/// Whether ID and secret fit their length prefixes.
pub open spec fn fits_authentication(client_id: Seq<char>, client_secret: Seq<char>) -> bool {
    encode_utf8(client_id).len() <= 0xff && encode_utf8(client_secret).len() <= 0xff
}

/// The bytes of an optional hash held as a slice.
pub open spec fn hash_bytes_model(hash: Option<&[u8]>) -> Option<Seq<u8>> {
    match hash {
        Some(bytes) => Some(bytes@),
        None => None,
    }
}

/// `bloop_protocol::set::decode_message` for an error response, as its code:
/// the payload is exactly the code byte.
#[verifier::external_body]
pub(crate) fn decode_error(raw: &RawMessage) -> (decoded: Result<u8, MessageSetError>)
    ensures
        match decoded {
            Ok(code) => raw.message_type == ERROR_RESPONSE && raw.payload@ == seq![code],
            Err(error) => error == decode_failure(
                *raw,
                ERROR_RESPONSE,
                decode_fault(ERROR_RESPONSE, raw.payload@),
            ) && (raw.message_type == ERROR_RESPONSE ==> raw.payload@.len() != 1),
        },
{
    let frame = Frame::new(raw.message_type, raw.payload.clone());
    match decode_message::<wire::ErrorResponse>(&frame) {
        Ok(error) => Ok(error.code()),
        Err(SetError::Malformed { opcode, source }) => {
            Err(MessageSetError::Malformed { opcode, source })
        },
        Err(_) => Err(MessageSetError::UnknownOpcode(raw.message_type)),
    }
}

/// `bloop_protocol::set::decode_message` for a server handshake, as accepted
/// version and capability bits: the payload is the version byte and the bits,
/// least significant byte first.
#[verifier::external_body]
pub(crate) fn decode_server_handshake(raw: &RawMessage) -> (decoded: Result<
    (u8, u64),
    MessageSetError,
>)
    ensures
        match decoded {
            Ok(handshake) => raw.message_type == SERVER_HANDSHAKE && raw.payload@
                == server_handshake_wire(handshake.0, handshake.1),
            Err(error) => error == decode_failure(
                *raw,
                SERVER_HANDSHAKE,
                decode_fault(SERVER_HANDSHAKE, raw.payload@),
            ) && (raw.message_type == SERVER_HANDSHAKE ==> raw.payload@.len() != 9),
        },
{
    let frame = Frame::new(raw.message_type, raw.payload.clone());
    match decode_message::<wire::ServerHandshake>(&frame) {
        Ok(handshake) => Ok((handshake.accepted_version, handshake.capabilities.bits())),
        Err(SetError::Malformed { opcode, source }) => {
            Err(MessageSetError::Malformed { opcode, source })
        },
        Err(_) => Err(MessageSetError::UnknownOpcode(raw.message_type)),
    }
}

/// `bloop_protocol::set::decode_message` for an accepted authentication: the
/// payload is empty.
#[verifier::external_body]
pub(crate) fn decode_authentication_accepted(raw: &RawMessage) -> (decoded: Result<
    (),
    MessageSetError,
>)
    ensures
        match decoded {
            Ok(()) => raw.message_type == AUTHENTICATION_ACCEPTED && raw.payload@.len() == 0,
            Err(error) => error == decode_failure(
                *raw,
                AUTHENTICATION_ACCEPTED,
                decode_fault(AUTHENTICATION_ACCEPTED, raw.payload@),
            ) && (raw.message_type == AUTHENTICATION_ACCEPTED ==> raw.payload@.len() != 0),
        },
{
    let frame = Frame::new(raw.message_type, raw.payload.clone());
    match decode_message::<wire::AuthenticationAccepted>(&frame) {
        Ok(_) => Ok(()),
        Err(SetError::Malformed { opcode, source }) => {
            Err(MessageSetError::Malformed { opcode, source })
        },
        Err(_) => Err(MessageSetError::UnknownOpcode(raw.message_type)),
    }
}

/// `bloop_protocol::set::decode_message` for a pong: the payload is empty.
#[verifier::external_body]
pub(crate) fn decode_pong(raw: &RawMessage) -> (decoded: Result<(), MessageSetError>)
    ensures
        match decoded {
            Ok(()) => raw.message_type == PONG && raw.payload@.len() == 0,
            Err(error) => error == decode_failure(
                *raw,
                PONG,
                decode_fault(PONG, raw.payload@),
            ) && (raw.message_type == PONG ==> raw.payload@.len() != 0),
        },
{
    let frame = Frame::new(raw.message_type, raw.payload.clone());
    match decode_message::<wire::Pong>(&frame) {
        Ok(_) => Ok(()),
        Err(SetError::Malformed { opcode, source }) => {
            Err(MessageSetError::Malformed { opcode, source })
        },
        Err(_) => Err(MessageSetError::UnknownOpcode(raw.message_type)),
    }
}

/// `bloop_protocol::set::decode_message` for a preload match: the payload is
/// empty.
#[verifier::external_body]
pub(crate) fn decode_preload_match(raw: &RawMessage) -> (decoded: Result<(), MessageSetError>)
    ensures
        match decoded {
            Ok(()) => raw.message_type == PRELOAD_MATCH && raw.payload@.len() == 0,
            Err(error) => error == decode_failure(
                *raw,
                PRELOAD_MATCH,
                decode_fault(PRELOAD_MATCH, raw.payload@),
            ) && (raw.message_type == PRELOAD_MATCH ==> raw.payload@.len() != 0),
        },
{
    let frame = Frame::new(raw.message_type, raw.payload.clone());
    match decode_message::<wire::PreloadMatch>(&frame) {
        Ok(_) => Ok(()),
        Err(SetError::Malformed { opcode, source }) => {
            Err(MessageSetError::Malformed { opcode, source })
        },
        Err(_) => Err(MessageSetError::UnknownOpcode(raw.message_type)),
    }
}

/// `bloop_protocol::set::decode_message` for audio data: the payload is the
/// length and the data.
#[verifier::external_body]
pub(crate) fn decode_audio_data(raw: &RawMessage) -> (decoded: Result<Vec<u8>, MessageSetError>)
    ensures
        match decoded {
            Ok(data) => raw.message_type == AUDIO_DATA && is_audio_data(data@)
                && raw.payload@ == audio_data_wire(data@),
            Err(error) => error == decode_failure(
                *raw,
                AUDIO_DATA,
                decode_fault(AUDIO_DATA, raw.payload@),
            ) && (raw.message_type == AUDIO_DATA ==> forall|data: Seq<u8>|
                is_audio_data(data) ==> raw.payload@ != #[trigger] audio_data_wire(data)),
        },
{
    let frame = Frame::new(raw.message_type, raw.payload.clone());
    match decode_message::<wire::AudioData>(&frame) {
        Ok(audio) => Ok(audio.data),
        Err(SetError::Malformed { opcode, source }) => {
            Err(MessageSetError::Malformed { opcode, source })
        },
        Err(_) => Err(MessageSetError::UnknownOpcode(raw.message_type)),
    }
}

/// `bloop_protocol::set::decode_message` for an accepted bloop: the payload is
/// the count and the records.
#[verifier::external_body]
pub(crate) fn decode_bloop_accepted(raw: &RawMessage) -> (decoded: Result<
    Vec<AchievementRecord>,
    MessageSetError,
>)
    ensures
        match decoded {
            Ok(records) => raw.message_type == BLOOP_ACCEPTED && is_bloop_accepted(
                record_models(records@),
            ) && raw.payload@ == bloop_accepted_wire(record_models(records@)),
            Err(error) => error == decode_failure(
                *raw,
                BLOOP_ACCEPTED,
                decode_fault(BLOOP_ACCEPTED, raw.payload@),
            ) && (raw.message_type == BLOOP_ACCEPTED ==> forall|records: Seq<RecordModel>|
                is_bloop_accepted(records) ==> raw.payload@ != #[trigger] bloop_accepted_wire(
                    records,
                )),
        },
{
    let frame = Frame::new(raw.message_type, raw.payload.clone());
    match decode_message::<wire::BloopAccepted>(&frame) {
        Ok(message) => Ok(message.achievements.into_iter().map(|record| AchievementRecord {
                id: *record.id.as_bytes(),
                audio_hash: record.audio_hash.map(|hash| DataHash { bytes: hash.as_bytes().into() }),
            }).collect()),
        Err(SetError::Malformed { opcode, source }) => {
            Err(MessageSetError::Malformed { opcode, source })
        },
        Err(_) => Err(MessageSetError::UnknownOpcode(raw.message_type)),
    }
}

/// `bloop_protocol::set::decode_message` for a preload mismatch: the payload
/// is the manifest hash, the count and the records.
#[verifier::external_body]
pub(crate) fn decode_preload_mismatch(raw: &RawMessage) -> (decoded: Result<
    (DataHash, Vec<AchievementRecord>),
    MessageSetError,
>)
    ensures
        match decoded {
            Ok(mismatch) => raw.message_type == PRELOAD_MISMATCH && is_preload_mismatch(
                mismatch.0@,
                record_models(mismatch.1@),
            ) && raw.payload@ == preload_mismatch_wire(mismatch.0@, record_models(mismatch.1@)),
            Err(error) => error == decode_failure(
                *raw,
                PRELOAD_MISMATCH,
                decode_fault(PRELOAD_MISMATCH, raw.payload@),
            ) && (raw.message_type == PRELOAD_MISMATCH ==> forall|hash: Seq<u8>, records: Seq<RecordModel>|
                is_preload_mismatch(hash, records) ==> raw.payload@
                    != #[trigger] preload_mismatch_wire(hash, records)),
        },
{
    let frame = Frame::new(raw.message_type, raw.payload.clone());
    match decode_message::<wire::PreloadMismatch>(&frame) {
        Ok(message) => Ok((
            DataHash { bytes: message.audio_manifest_hash.as_bytes().to_vec() },
            message.achievements.into_iter().map(|record| AchievementRecord {
                id: *record.id.as_bytes(),
                audio_hash: record.audio_hash.map(|hash| DataHash { bytes: hash.as_bytes().into() }),
            }).collect(),
        )),
        Err(SetError::Malformed { opcode, source }) => {
            Err(MessageSetError::Malformed { opcode, source })
        },
        Err(_) => Err(MessageSetError::UnknownOpcode(raw.message_type)),
    }
}

/// `bloop_protocol::set::encode_message` for a ping: an empty payload.
#[verifier::external_body]
pub(crate) fn encode_ping() -> (raw: RawMessage)
    ensures
        raw.message_type == PING,
        raw.payload@ == Seq::<u8>::empty(),
{
    let message = wire::Ping;
    let raw = encode_message(&message).expect("every field fits its prefix");
    RawMessage { message_type: raw.message_type, payload: raw.payload }
}

/// `bloop_protocol::set::encode_message` for an announced disconnect: an empty
/// payload.
#[verifier::external_body]
pub(crate) fn encode_quit() -> (raw: RawMessage)
    ensures
        raw.message_type == QUIT,
        raw.payload@ == Seq::<u8>::empty(),
{
    let message = wire::Quit;
    let raw = encode_message(&message).expect("every field fits its prefix");
    RawMessage { message_type: raw.message_type, payload: raw.payload }
}

/// `bloop_protocol::set::encode_message` for a client handshake: the lowest and
/// the highest version.
#[verifier::external_body]
pub(crate) fn encode_client_handshake(min_version: u8, max_version: u8) -> (raw: RawMessage)
    ensures
        raw.message_type == CLIENT_HANDSHAKE,
        raw.payload@ == seq![min_version, max_version],
{
    let message = wire::ClientHandshake { min_version, max_version };
    let raw = encode_message(&message).expect("every field fits its prefix");
    RawMessage { message_type: raw.message_type, payload: raw.payload }
}

/// `bloop_protocol::set::encode_message` for a bloop: the length of the UID and
/// the UID.
#[verifier::external_body]
pub(crate) fn encode_bloop(uid: &NfcUid) -> (raw: RawMessage)
    ensures
        raw.message_type == BLOOP,
        raw.payload@ == seq![uid@.len() as u8] + uid@,
{
    let message = wire::Bloop {
        nfc_uid: match uid {
            NfcUid::Single(bytes) => bloop_protocol::NfcUid::Single(*bytes),
            NfcUid::Double(bytes) => bloop_protocol::NfcUid::Double(*bytes),
            NfcUid::Triple(bytes) => bloop_protocol::NfcUid::Triple(*bytes),
        },
    };
    let raw = encode_message(&message).expect("every field fits its prefix");
    RawMessage { message_type: raw.message_type, payload: raw.payload }
}

/// `bloop_protocol::set::encode_message` for an audio request: the bytes of the
/// achievement ID.
#[verifier::external_body]
pub(crate) fn encode_retrieve_audio(achievement_id: &[u8; 16]) -> (raw: RawMessage)
    ensures
        raw.message_type == RETRIEVE_AUDIO,
        raw.payload@ == achievement_id@,
{
    let message = wire::RetrieveAudio {
        achievement_id: uuid::Uuid::from_bytes(*achievement_id),
    };
    let raw = encode_message(&message).expect("every field fits its prefix");
    RawMessage { message_type: raw.message_type, payload: raw.payload }
}

/// `bloop_protocol::set::encode_message` for a preload check: the manifest hash
/// behind its length, or a zero byte.
#[verifier::external_body]
pub(crate) fn encode_preload_check(hash: Option<&[u8]>) -> (raw: RawMessage)
    requires
        hash matches Some(bytes) ==> is_hash_length(bytes@.len()),
    ensures
        raw.message_type == PRELOAD_CHECK,
        raw.payload@ == hash_wire(hash_bytes_model(hash)),
{
    let message = wire::PreloadCheck {
        audio_manifest_hash: hash.map(
            |bytes| bloop_protocol::DataHash::try_from(bytes).expect("length checked"),
        ),
    };
    let raw = encode_message(&message).expect("every field fits its prefix");
    RawMessage { message_type: raw.message_type, payload: raw.payload }
}

/// `bloop_protocol::set::encode_message` for an authentication: ID and secret
/// behind their lengths, then the address; an error exactly if ID or secret
/// is longer than 255 bytes, and which one depends on these two alone.
#[verifier::external_body]
pub(crate) fn encode_authentication(
    client_id: &str,
    client_secret: &str,
    address: &IpAddress,
) -> (encoded: Result<RawMessage, bloop_protocol::codec::EncodeError>)
    ensures
        encoded is Ok <==> fits_authentication(client_id@, client_secret@),
        encoded matches Err(error) ==> error == authentication_fault(client_id@, client_secret@),
        encoded matches Ok(raw) ==> raw.message_type == AUTHENTICATION && raw.payload@
            == authentication_wire(client_id@, client_secret@, *address),
{
    let message = wire::Authentication {
        client_id: client_id.to_owned(),
        client_secret: client_secret.to_owned(),
        ip_address: match address {
            IpAddress::V4(octets) => (*octets).into(),
            IpAddress::V6(octets) => (*octets).into(),
        },
    };
    let raw = encode_message(&message)?;
    Ok(RawMessage { message_type: raw.message_type, payload: raw.payload })
}

/// The codes that extensions define survive as custom errors, and only the
/// first four codes are fatal.
pub proof fn law_error_codes(code: u8)
    ensures
        code >= 0x80 ==> error_of_code(code) == ErrorResponse::Custom(code),
        is_fatal_error(error_of_code(code)) <==> code < 4,
{
}

/// Equal concatenations whose heads have equal lengths have equal parts.
proof fn lemma_split<T>(head: Seq<T>, tail: Seq<T>, other_head: Seq<T>, other_tail: Seq<T>)
    requires
        head + tail == other_head + other_tail,
        head.len() == other_head.len(),
    ensures
        head == other_head,
        tail == other_tail,
{
    let whole = head + tail;
    let other = other_head + other_tail;
    assert(head =~= whole.take(head.len() as int));
    assert(other_head =~= other.take(head.len() as int));
    assert(tail =~= whole.skip(head.len() as int));
    assert(other_tail =~= other.skip(head.len() as int));
}

/// A hash can be told from the bytes behind it.
proof fn lemma_hash_wire(
    hash: Option<Seq<u8>>,
    rest: Seq<u8>,
    other: Option<Seq<u8>>,
    other_rest: Seq<u8>,
)
    requires
        hash_wire(hash) + rest == hash_wire(other) + other_rest,
        hash matches Some(bytes) ==> is_hash_length(bytes.len()),
        other matches Some(bytes) ==> is_hash_length(bytes.len()),
    ensures
        hash == other,
        rest == other_rest,
{
    assert((hash_wire(hash) + rest)[0] == hash_wire(hash)[0]);
    assert((hash_wire(other) + other_rest)[0] == hash_wire(other)[0]);
    lemma_split(hash_wire(hash), rest, hash_wire(other), other_rest);
    if let (Some(bytes), Some(other_bytes)) = (hash, other) {
        lemma_split(
            seq![bytes.len() as u8],
            bytes,
            seq![other_bytes.len() as u8],
            other_bytes,
        );
    }
}

/// Records can be told from each other, given how many there are.
proof fn lemma_records_wire(records: Seq<RecordModel>, others: Seq<RecordModel>)
    requires
        records_wire(records) == records_wire(others),
        records.len() == others.len(),
        are_records(records),
        are_records(others),
    ensures
        records == others,
    decreases records.len(),
{
    if records.len() > 0 {
        let (record, other) = (records[0], others[0]);
        let (rest, other_rest) = (records.drop_first(), others.drop_first());
        let behind = hash_wire(record.audio_hash) + records_wire(rest);
        let other_behind = hash_wire(other.audio_hash) + records_wire(other_rest);
        assert(records_wire(records) =~= record.id + behind);
        assert(records_wire(others) =~= other.id + other_behind);
        lemma_split(record.id, behind, other.id, other_behind);
        lemma_hash_wire(
            record.audio_hash,
            records_wire(rest),
            other.audio_hash,
            records_wire(other_rest),
        );
        lemma_records_wire(rest, other_rest);
        assert(records =~= seq![record] + rest);
        assert(others =~= seq![other] + other_rest);
    } else {
        assert(records =~= others);
    }
}

/// A number is the sum of its weighted bytes.
proof fn lemma_le_u32_value(value: nat)
    requires
        value <= 0xffff_ffff,
    ensures
        value == le_u32(value)[0] + 0x100 * le_u32(value)[1] + 0x1_0000 * le_u32(value)[2]
            + 0x100_0000 * le_u32(value)[3],
{
    let (high, higher, highest) = (value / 0x100, value / 0x1_0000, value / 0x100_0000);
    assert(value == 0x100 * high + value % 0x100);
    assert(high == 0x100 * higher + high % 0x100);
    assert(higher == 0x100 * highest + higher % 0x100);
    assert(highest < 0x100);
}

/// A number can be read back from its four bytes.
proof fn lemma_le_u32(value: nat, other: nat)
    requires
        le_u32(value) == le_u32(other),
        value <= 0xffff_ffff,
        other <= 0xffff_ffff,
    ensures
        value == other,
{
    lemma_le_u32_value(value);
    lemma_le_u32_value(other);
}

/// A payload is that of at most one accepted bloop.
pub proof fn law_bloop_accepted_is_unique(records: Seq<RecordModel>, others: Seq<RecordModel>)
    requires
        is_bloop_accepted(records),
        is_bloop_accepted(others),
        bloop_accepted_wire(records) == bloop_accepted_wire(others),
    ensures
        records == others,
{
    lemma_split(
        seq![records.len() as u8],
        records_wire(records),
        seq![others.len() as u8],
        records_wire(others),
    );
    assert(seq![records.len() as u8][0] == seq![others.len() as u8][0]);
    lemma_records_wire(records, others);
}

/// A payload is that of at most one preload mismatch.
pub proof fn law_preload_mismatch_is_unique(
    hash: Seq<u8>,
    records: Seq<RecordModel>,
    other_hash: Seq<u8>,
    others: Seq<RecordModel>,
)
    requires
        is_preload_mismatch(hash, records),
        is_preload_mismatch(other_hash, others),
        preload_mismatch_wire(hash, records) == preload_mismatch_wire(other_hash, others),
    ensures
        hash == other_hash,
        records == others,
{
    let behind = le_u32(records.len()) + records_wire(records);
    let other_behind = le_u32(others.len()) + records_wire(others);
    assert(preload_mismatch_wire(hash, records) =~= hash_wire(Some(hash)) + behind);
    assert(preload_mismatch_wire(other_hash, others) =~= hash_wire(Some(other_hash))
        + other_behind);
    lemma_hash_wire(Some(hash), behind, Some(other_hash), other_behind);
    lemma_split(
        le_u32(records.len()),
        records_wire(records),
        le_u32(others.len()),
        records_wire(others),
    );
    lemma_le_u32(records.len(), others.len());
    lemma_records_wire(records, others);
}

/// A payload is that of at most one piece of audio data.
pub proof fn law_audio_data_is_unique(data: Seq<u8>, other: Seq<u8>)
    requires
        audio_data_wire(data) == audio_data_wire(other),
    ensures
        data == other,
{
    lemma_split(le_u32(data.len()), data, le_u32(other.len()), other);
}

/// A payload is that of at most one server handshake.
pub proof fn law_server_handshake_is_unique(
    version: u8,
    capabilities: u64,
    other_version: u8,
    other_capabilities: u64,
)
    requires
        server_handshake_wire(version, capabilities) == server_handshake_wire(
            other_version,
            other_capabilities,
        ),
    ensures
        version == other_version,
        capabilities == other_capabilities,
{
    let (bits, other_bits) = (capabilities as nat, other_capabilities as nat);
    lemma_split(seq![version], le_u64(bits), seq![other_version], le_u64(other_bits));
    assert(seq![version][0] == seq![other_version][0]);
    let (low, other_low) = (bits % 0x1_0000_0000, other_bits % 0x1_0000_0000);
    let (high, other_high) = (bits / 0x1_0000_0000, other_bits / 0x1_0000_0000);
    lemma_split(le_u32(low), le_u32(high), le_u32(other_low), le_u32(other_high));
    lemma_le_u32(low, other_low);
    lemma_le_u32(high, other_high);
}

/// Codes and errors correspond: the seven standard codes are the seven
/// standard errors, every other code survives as itself, and exactly the
/// first four close the connection.
pub proof fn law_codes_name_errors(code: u8, error: ErrorResponse, fatal: bool)
    requires
        call_ensures(ErrorResponse::from_code, (code,), error),
        call_ensures(ErrorResponse::is_fatal, (&error,), fatal),
    ensures
        error == error_of_code(code),
        code == 0 <==> error is UnexpectedMessage,
        code == 1 <==> error is MalformedMessage,
        code == 2 <==> error is UnsupportedVersionRange,
        code == 3 <==> error is InvalidCredentials,
        code == 4 <==> error is UnknownNfcUid,
        code == 5 <==> error is NfcUidThrottled,
        code == 6 <==> error is AudioUnavailable,
        code >= 7 <==> error is Custom,
        error matches ErrorResponse::Custom(kept) ==> kept == code,
        fatal <==> code < 4,
{
}

/// A custom error never closes the connection, whatever its code.
pub proof fn law_custom_errors_are_not_fatal(error: ErrorResponse, fatal: bool)
    requires
        call_ensures(ErrorResponse::is_fatal, (&error,), fatal),
    ensures
        fatal == is_fatal_error(error),
        fatal <==> !(error is UnknownNfcUid || error is NfcUidThrottled || error is AudioUnavailable
            || error is Custom),
{
}

/// A UID comes back out of its bytes, and no other length makes one.
pub proof fn law_uid_keeps_its_bytes(
    bytes: &[u8],
    made: Option<NfcUid>,
    uid: NfcUid,
    shown: &[u8],
)
    requires
        call_ensures(NfcUid::from_bytes, (bytes,), made),
        call_ensures(NfcUid::as_bytes, (&uid,), shown),
        made is Some ==> uid == made->Some_0,
    ensures
        made is Some <==> bytes@.len() == 4 || bytes@.len() == 7 || bytes@.len() == 10,
        made is Some ==> shown@ == bytes@,
{
}

/// A hash comes back out of its bytes, and no other length makes one.
pub proof fn law_hash_keeps_its_bytes(
    bytes: Vec<u8>,
    made: Option<DataHash>,
    hash: DataHash,
    shown: &[u8],
    text: String,
)
    requires
        call_ensures(DataHash::from_bytes, (bytes,), made),
        call_ensures(DataHash::as_bytes, (&hash,), shown),
        call_ensures(DataHash::text, (&hash,), text),
        made is Some ==> hash == made->Some_0,
    ensures
        made is Some <==> 1 <= bytes@.len() <= 255,
        made is Some ==> shown@ == bytes@ && text@ == crate::text::hex(bytes@),
{
}

/// A copy of a frame is the same frame.
pub proof fn law_frames_are_copied(raw: &RawMessage, copy: RawMessage)
    requires
        call_ensures(<RawMessage as Clone>::clone, (raw,), copy),
    ensures
        copy.message_type == raw.message_type,
        copy.payload@ == raw.payload@,
{
}

/// A copy of a hash is the same hash.
pub proof fn law_hashes_are_copied(hash: &DataHash, copy: DataHash)
    requires
        call_ensures(<DataHash as Clone>::clone, (hash,), copy),
    ensures
        copy@ == hash@,
{
}

/// A copy of a record has the same ID and the same hash, if any.
pub proof fn law_records_are_copied(record: &AchievementRecord, copy: AchievementRecord)
    requires
        call_ensures(<AchievementRecord as Clone>::clone, (record,), copy),
    ensures
        copy.id@ == record.id@,
        copy.audio_hash is Some <==> record.audio_hash is Some,
        record.audio_hash matches Some(hash) ==> copy.audio_hash->Some_0@ == hash@,
{
}

} // verus!
