//! The standard operations: the frames that ask for them, and what their
//! responses mean.

use vstd::prelude::*;

use crate::protocol::{
    audio_data_wire, bloop_accepted_wire, decode_audio_data, decode_bloop_accepted, decode_fault,
    decode_pong, decode_preload_match, decode_preload_mismatch, encode_bloop, encode_ping,
    encode_preload_check, encode_quit, encode_retrieve_audio, error_of_code, hash_model, hash_wire,
    is_audio_data, is_bloop_accepted, is_preload_mismatch, law_audio_data_is_unique,
    law_bloop_accepted_is_unique, law_preload_mismatch_is_unique, preload_mismatch_wire,
    record_models, AchievementRecord, DataHash, MessageSetError, NfcUid, RawMessage, RecordModel,
    AUDIO_DATA, BLOOP, BLOOP_ACCEPTED, PING, PONG, PRELOAD_CHECK, PRELOAD_MATCH, PRELOAD_MISMATCH,
    QUIT, RETRIEVE_AUDIO,
};
use crate::request::{decode_response, is_refused, RequestError};

verus! {

/// The result of a preload check.
#[derive(Clone, Debug, Eq, PartialEq)]
pub enum PreloadOutcome {
    /// The cached audio assets are up to date.
    Match,
    /// The cache is outdated; the current manifest and asset list follow.
    Mismatch {
        /// Hash of the server's current audio manifest.
        audio_manifest_hash: DataHash,
        /// The full current achievement list.
        achievements: Vec<AchievementRecord>,
    },
}

/// Builds the frame that keeps a connection alive.
pub fn ping_request() -> (raw: RawMessage)
    ensures
        raw.message_type == PING,
        raw.payload@ == Seq::<u8>::empty(),
{
    encode_ping()
}

/// Reads the answer to a ping.
pub fn ping_response(raw: RawMessage) -> (outcome: Result<(), RequestError>)
    ensures
        outcome is Ok <==> raw.message_type == PONG && raw.payload@.len() == 0,
        outcome matches Err(error) ==> is_refused(raw, PONG, error),
{
    let decoded = decode_pong(&raw);
    decode_response(raw, decoded)
}

/// Builds the frame that announces a disconnect.
pub fn quit_request() -> (raw: RawMessage)
    ensures
        raw.message_type == QUIT,
        raw.payload@ == Seq::<u8>::empty(),
{
    encode_quit()
}

/// Builds the frame that asks the server to verify a scanned NFC UID.
pub fn bloop_request(nfc_uid: NfcUid) -> (raw: RawMessage)
    ensures
        raw.message_type == BLOOP,
        raw.payload@ == seq![nfc_uid@.len() as u8] + nfc_uid@,
{
    encode_bloop(&nfc_uid)
}

/// What the answer to a bloop comes to: the records it carries if it is an
/// accepted bloop, else the reason it is none.
pub open spec fn is_bloop_outcome(
    raw: RawMessage,
    outcome: Result<Vec<AchievementRecord>, RequestError>,
) -> bool {
    match outcome {
        Ok(records) => raw.message_type == BLOOP_ACCEPTED && is_bloop_accepted(
            record_models(records@),
        ) && raw.payload@ == bloop_accepted_wire(record_models(records@)),
        Err(error) => is_refused(raw, BLOOP_ACCEPTED, error) && (raw.message_type
            == BLOOP_ACCEPTED ==> forall|records: Seq<RecordModel>|
            is_bloop_accepted(records) ==> raw.payload@ != #[trigger] bloop_accepted_wire(records)),
    }
}

/// Reads the answer to a bloop: the awarded achievements.
pub fn bloop_response(raw: RawMessage) -> (outcome: Result<Vec<AchievementRecord>, RequestError>)
    ensures
        is_bloop_outcome(raw, outcome),
{
    let decoded = decode_bloop_accepted(&raw);
    decode_response(raw, decoded)
}

/// Builds the frame that asks for the audio data of an achievement.
pub fn audio_request(achievement_id: &[u8; 16]) -> (raw: RawMessage)
    ensures
        raw.message_type == RETRIEVE_AUDIO,
        raw.payload@ == achievement_id@,
{
    encode_retrieve_audio(achievement_id)
}

/// What the answer to an audio request comes to: the data it carries if it is
/// audio data, else the reason it is none.
pub open spec fn is_audio_outcome(raw: RawMessage, outcome: Result<Vec<u8>, RequestError>) -> bool {
    match outcome {
        Ok(data) => raw.message_type == AUDIO_DATA && is_audio_data(data@) && raw.payload@
            == audio_data_wire(data@),
        Err(error) => is_refused(raw, AUDIO_DATA, error) && (raw.message_type == AUDIO_DATA
            ==> forall|data: Seq<u8>|
            is_audio_data(data) ==> raw.payload@ != #[trigger] audio_data_wire(data)),
    }
}

/// Reads the answer to an audio request: the audio data.
pub fn audio_response(raw: RawMessage) -> (outcome: Result<Vec<u8>, RequestError>)
    ensures
        is_audio_outcome(raw, outcome),
{
    let decoded = decode_audio_data(&raw);
    decode_response(raw, decoded)
}

/// Builds the frame that asks whether the cached audio assets are up to date.
pub fn preload_request(audio_manifest_hash: &Option<DataHash>) -> (raw: RawMessage)
    ensures
        raw.message_type == PRELOAD_CHECK,
        raw.payload@ == hash_wire(hash_model(*audio_manifest_hash)),
{
    match audio_manifest_hash {
        Some(hash) => encode_preload_check(Some(hash.as_bytes())),
        None => encode_preload_check(None),
    }
}

/// Whether a response is a well-formed preload mismatch.
pub open spec fn is_mismatch_response(raw: RawMessage) -> bool {
    &&& raw.message_type == PRELOAD_MISMATCH
    &&& exists|hash: Seq<u8>, records: Seq<RecordModel>|
        is_preload_mismatch(hash, records) && raw.payload@ == #[trigger] preload_mismatch_wire(
            hash,
            records,
        )
}

/// What the answer to a preload check comes to: a match, the mismatch it
/// carries, or the reason it is neither.
pub open spec fn is_preload_outcome(
    raw: RawMessage,
    outcome: Result<PreloadOutcome, RequestError>,
) -> bool {
    &&& outcome is Ok <==> is_mismatch_response(raw) || (raw.message_type == PRELOAD_MATCH
        && raw.payload@.len() == 0)
    &&& match outcome {
        Ok(PreloadOutcome::Match) => raw.message_type == PRELOAD_MATCH,
        Ok(PreloadOutcome::Mismatch { audio_manifest_hash, achievements }) => raw.message_type
            == PRELOAD_MISMATCH && is_preload_mismatch(
            audio_manifest_hash@,
            record_models(achievements@),
        ) && raw.payload@ == preload_mismatch_wire(
            audio_manifest_hash@,
            record_models(achievements@),
        ),
        Err(error) => is_refused(
            raw,
            if raw.message_type == PRELOAD_MATCH {
                PRELOAD_MATCH
            } else {
                PRELOAD_MISMATCH
            },
            error,
        ),
    }
}

/// Reads the answer to a preload check.
pub fn preload_response(raw: RawMessage) -> (outcome: Result<PreloadOutcome, RequestError>)
    ensures
        is_preload_outcome(raw, outcome),
{
    if raw.message_type == PRELOAD_MATCH {
        let decoded = decode_preload_match(&raw);
        return match decode_response(raw, decoded) {
            Ok(()) => Ok(PreloadOutcome::Match),
            Err(error) => Err(error),
        };
    }
    let decoded = decode_preload_mismatch(&raw);
    match decode_response(raw, decoded) {
        Ok((audio_manifest_hash, achievements)) => Ok(
            PreloadOutcome::Mismatch { audio_manifest_hash, achievements },
        ),
        Err(error) => Err(error),
    }
}

/// The achievements a server awards are those the caller gets.
pub proof fn law_awards_arrive(
    raw: RawMessage,
    records: Seq<RecordModel>,
    outcome: Result<Vec<AchievementRecord>, RequestError>,
)
    requires
        raw.message_type == BLOOP_ACCEPTED,
        is_bloop_accepted(records),
        raw.payload@ == bloop_accepted_wire(records),
        is_bloop_outcome(raw, outcome),
    ensures
        outcome matches Ok(received) && record_models(received@) == records,
{
    if let Ok(received) = outcome {
        law_bloop_accepted_is_unique(record_models(received@), records);
    }
}

/// The audio data a server delivers is what the caller gets.
pub proof fn law_audio_arrives(
    raw: RawMessage,
    data: Seq<u8>,
    outcome: Result<Vec<u8>, RequestError>,
)
    requires
        raw.message_type == AUDIO_DATA,
        is_audio_data(data),
        raw.payload@ == audio_data_wire(data),
        is_audio_outcome(raw, outcome),
    ensures
        outcome matches Ok(received) && received@ == data,
{
    if let Ok(received) = outcome {
        law_audio_data_is_unique(received@, data);
    }
}

/// The manifest a server reports as current is the one the caller gets.
pub proof fn law_manifest_arrives(
    raw: RawMessage,
    hash: Seq<u8>,
    records: Seq<RecordModel>,
    outcome: Result<PreloadOutcome, RequestError>,
)
    requires
        raw.message_type == PRELOAD_MISMATCH,
        is_preload_mismatch(hash, records),
        raw.payload@ == preload_mismatch_wire(hash, records),
        is_preload_outcome(raw, outcome),
    ensures
        outcome matches Ok(PreloadOutcome::Mismatch { audio_manifest_hash, achievements })
            && audio_manifest_hash@ == hash && record_models(achievements@) == records,
{
    assert(is_mismatch_response(raw));
    if let Ok(PreloadOutcome::Mismatch { audio_manifest_hash, achievements }) = outcome {
        law_preload_mismatch_is_unique(
            audio_manifest_hash@,
            record_models(achievements@),
            hash,
            records,
        );
    }
}

/// Only an empty pong answers a ping; anything else is refused for what it is.
pub proof fn law_ping_response(raw: RawMessage, outcome: Result<(), RequestError>)
    requires
        call_ensures(ping_response, (raw,), outcome),
    ensures
        outcome is Ok <==> raw.message_type == 0x06 && raw.payload@.len() == 0,
        raw.message_type == 0x00 && raw.payload@.len() == 1 ==> outcome == Err::<
            (),
            RequestError,
        >(RequestError::Error(error_of_code(raw.payload@[0]))),
        raw.message_type == 0x00 && raw.payload@.len() != 1 ==> outcome == Err::<
            (),
            RequestError,
        >(
            RequestError::Malformed(
                MessageSetError::Malformed { opcode: 0x00, source: decode_fault(0x00, raw.payload@) },
            ),
        ),
        raw.message_type != 0x00 && raw.message_type != 0x06 ==> outcome == Err::<
            (),
            RequestError,
        >(RequestError::UnexpectedResponse(raw)),
        raw.message_type == 0x06 && outcome is Err ==> outcome == Err::<(), RequestError>(
            RequestError::Malformed(
                MessageSetError::Malformed { opcode: 0x06, source: decode_fault(0x06, raw.payload@) },
            ),
        ),
{
}

/// A bloop comes to the records on the wire or is refused for what came
/// instead; it never comes to records that were not sent.
pub proof fn law_bloop_response(raw: RawMessage, outcome: Result<Vec<AchievementRecord>, RequestError>)
    requires
        call_ensures(bloop_response, (raw,), outcome),
    ensures
        is_bloop_outcome(raw, outcome),
        outcome matches Ok(records) ==> raw.message_type == 0x09 && raw.payload@
            == bloop_accepted_wire(record_models(records@)),
        raw.message_type == 0x00 && raw.payload@.len() == 1 ==> outcome == Err::<
            Vec<AchievementRecord>,
            RequestError,
        >(RequestError::Error(error_of_code(raw.payload@[0]))),
        raw.message_type == 0x00 && raw.payload@.len() != 1 ==> outcome == Err::<
            Vec<AchievementRecord>,
            RequestError,
        >(
            RequestError::Malformed(
                MessageSetError::Malformed { opcode: 0x00, source: decode_fault(0x00, raw.payload@) },
            ),
        ),
        raw.message_type != 0x00 && raw.message_type != 0x09 ==> outcome == Err::<
            Vec<AchievementRecord>,
            RequestError,
        >(RequestError::UnexpectedResponse(raw)),
        raw.message_type == 0x09 && outcome is Err ==> outcome == Err::<Vec<AchievementRecord>, RequestError>(
            RequestError::Malformed(
                MessageSetError::Malformed { opcode: 0x09, source: decode_fault(0x09, raw.payload@) },
            ),
        ),
{
}

/// An audio request comes to the data on the wire or is refused for what came
/// instead; it never comes to data that was not sent.
pub proof fn law_audio_response(raw: RawMessage, outcome: Result<Vec<u8>, RequestError>)
    requires
        call_ensures(audio_response, (raw,), outcome),
    ensures
        is_audio_outcome(raw, outcome),
        outcome matches Ok(data) ==> raw.message_type == 0x0b && raw.payload@ == audio_data_wire(
            data@,
        ),
        raw.message_type == 0x00 && raw.payload@.len() == 1 ==> outcome == Err::<
            Vec<u8>,
            RequestError,
        >(RequestError::Error(error_of_code(raw.payload@[0]))),
        raw.message_type == 0x00 && raw.payload@.len() != 1 ==> outcome == Err::<
            Vec<u8>,
            RequestError,
        >(
            RequestError::Malformed(
                MessageSetError::Malformed { opcode: 0x00, source: decode_fault(0x00, raw.payload@) },
            ),
        ),
        raw.message_type != 0x00 && raw.message_type != 0x0b ==> outcome == Err::<
            Vec<u8>,
            RequestError,
        >(RequestError::UnexpectedResponse(raw)),
        raw.message_type == 0x0b && outcome is Err ==> outcome == Err::<Vec<u8>, RequestError>(
            RequestError::Malformed(
                MessageSetError::Malformed { opcode: 0x0b, source: decode_fault(0x0b, raw.payload@) },
            ),
        ),
{
}

/// A preload check comes to a match exactly on an empty match frame, to the
/// mismatch on the wire, or is refused for what came instead.
pub proof fn law_preload_response(raw: RawMessage, outcome: Result<PreloadOutcome, RequestError>)
    requires
        call_ensures(preload_response, (raw,), outcome),
    ensures
        is_preload_outcome(raw, outcome),
        outcome == Ok::<PreloadOutcome, RequestError>(PreloadOutcome::Match) <==> raw.message_type
            == 0x0d && raw.payload@.len() == 0,
        outcome matches Ok(PreloadOutcome::Mismatch { audio_manifest_hash, achievements })
            ==> raw.message_type == 0x0e && raw.payload@ == preload_mismatch_wire(
            audio_manifest_hash@,
            record_models(achievements@),
        ),
        raw.message_type == 0x00 && raw.payload@.len() == 1 ==> outcome == Err::<
            PreloadOutcome,
            RequestError,
        >(RequestError::Error(error_of_code(raw.payload@[0]))),
        raw.message_type == 0x00 && raw.payload@.len() != 1 ==> outcome == Err::<
            PreloadOutcome,
            RequestError,
        >(
            RequestError::Malformed(
                MessageSetError::Malformed { opcode: 0x00, source: decode_fault(0x00, raw.payload@) },
            ),
        ),
        raw.message_type != 0x00 && raw.message_type != 0x0d && raw.message_type != 0x0e ==> outcome
            == Err::<PreloadOutcome, RequestError>(RequestError::UnexpectedResponse(raw)),
        raw.message_type == 0x0d && raw.payload@.len() != 0 ==> outcome == Err::<
            PreloadOutcome,
            RequestError,
        >(
            RequestError::Malformed(
                MessageSetError::Malformed { opcode: 0x0d, source: decode_fault(0x0d, raw.payload@) },
            ),
        ),
        raw.message_type == 0x0e && outcome is Err ==> outcome == Err::<
            PreloadOutcome,
            RequestError,
        >(
            RequestError::Malformed(
                MessageSetError::Malformed { opcode: 0x0e, source: decode_fault(0x0e, raw.payload@) },
            ),
        ),
{
}

/// Requests carry their opcode and what they ask about, and nothing else.
pub proof fn law_requests_carry_their_question(
    uid: NfcUid,
    bloop: RawMessage,
    achievement_id: &[u8; 16],
    audio: RawMessage,
    ping: RawMessage,
    quit: RawMessage,
)
    requires
        call_ensures(bloop_request, (uid,), bloop),
        call_ensures(audio_request, (achievement_id,), audio),
        call_ensures(ping_request, (), ping),
        call_ensures(quit_request, (), quit),
    ensures
        bloop.message_type == 0x08,
        bloop.payload@.len() == 1 + uid@.len(),
        bloop.payload@[0] as int == uid@.len(),
        bloop.payload@.skip(1) == uid@,
        audio.message_type == 0x0a,
        audio.payload@ == achievement_id@,
        ping.message_type == 0x05 && ping.payload@.len() == 0,
        quit.message_type == 0x07 && quit.payload@.len() == 0,
{
    assert(bloop.payload@.skip(1) =~= uid@);
}

/// A preload check carries the manifest hash behind its length, or a zero.
pub proof fn law_preload_request(hash: &Option<DataHash>, raw: RawMessage)
    requires
        call_ensures(preload_request, (hash,), raw),
    ensures
        raw.message_type == 0x0c,
        *hash is None ==> raw.payload@ == seq![0u8],
        *hash matches Some(hash) ==> raw.payload@.skip(1) == hash@ && raw.payload@[0]
            == hash@.len() as u8,
{
    if let Some(hash) = hash {
        assert(raw.payload@.skip(1) =~= hash@);
    }
}

} // verus!
