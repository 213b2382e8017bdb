use bloop_client_framework::client::ConnectionStatus;
use bloop_client_framework::operations::{
    audio_request, audio_response, bloop_request, bloop_response, ping_request, ping_response,
    preload_request, preload_response, quit_request, PreloadOutcome,
};
use bloop_client_framework::protocol::{
    AchievementRecord, DataHash, ErrorResponse, MessageSetError, NfcUid, RawMessage,
};
use bloop_client_framework::request::{
    configured, decode_response, exchanged, send_request, Delivery, RequestError,
};
use bloop_protocol::codec::{DecodeError, Encode};
use bloop_protocol::message::{
    AudioData, BloopAccepted, ClientMessage, Pong, PreloadMatch, PreloadMismatch,
};
use bloop_protocol::set::{encode_message, MessageSet, NoExtension, Payload};
use uuid::Uuid;

fn frame<M: Payload + Encode>(message: &M) -> RawMessage {
    let raw = encode_message(message).unwrap();

    RawMessage {
        message_type: raw.message_type,
        payload: raw.payload,
    }
}

fn raw(message_type: u8, payload: &[u8]) -> RawMessage {
    RawMessage {
        message_type,
        payload: payload.to_vec(),
    }
}

fn sent(raw: &RawMessage) -> ClientMessage {
    ClientMessage::<NoExtension>::decode(&bloop_protocol::frame::RawMessage::new(
        raw.message_type,
        raw.payload.clone(),
    ))
    .unwrap()
}

fn outside_records() -> Vec<bloop_protocol::message::AchievementRecord> {
    vec![
        bloop_protocol::message::AchievementRecord {
            id: Uuid::from_bytes([7; 16]),
            audio_hash: Some(bloop_protocol::DataHash::try_from(vec![9u8; 16]).unwrap()),
        },
        bloop_protocol::message::AchievementRecord {
            id: Uuid::from_bytes([8; 16]),
            audio_hash: None,
        },
    ]
}

fn records() -> Vec<AchievementRecord> {
    vec![
        AchievementRecord {
            id: [7; 16],
            audio_hash: DataHash::from_bytes(vec![9; 16]),
        },
        AchievementRecord {
            id: [8; 16],
            audio_hash: None,
        },
    ]
}

#[test]
fn success_response_decodes() {
    let raw = frame(&Pong);
    assert!(ping_response(raw).is_ok());
}

#[test]
fn error_response_maps_to_request_error() {
    let raw = frame(&bloop_protocol::message::ErrorResponse::UnknownNfcUid);
    let error = ping_response(raw).unwrap_err();

    assert!(matches!(
        error,
        RequestError::Error(ErrorResponse::UnknownNfcUid)
    ));
}

#[test]
fn custom_error_code_survives() {
    let raw = frame(&bloop_protocol::message::ErrorResponse::Custom(0x90));
    let error = ping_response(raw).unwrap_err();

    assert!(matches!(
        error,
        RequestError::Error(ErrorResponse::Custom(0x90))
    ));
}

#[test]
fn foreign_opcode_is_unexpected() {
    let raw = RawMessage {
        message_type: 0x42,
        payload: vec![],
    };
    let error = ping_response(raw).unwrap_err();

    assert!(matches!(error, RequestError::UnexpectedResponse(_)));
}

#[test]
fn malformed_payload_is_reported() {
    let raw = RawMessage {
        message_type: Pong::OPCODE,
        payload: vec![1, 2, 3],
    };
    let error = ping_response(raw).unwrap_err();

    assert!(matches!(error, RequestError::Malformed(_)));
}

#[test]
fn every_error_code_has_its_error() {
    let expected = [
        ErrorResponse::UnexpectedMessage,
        ErrorResponse::MalformedMessage,
        ErrorResponse::UnsupportedVersionRange,
        ErrorResponse::InvalidCredentials,
        ErrorResponse::UnknownNfcUid,
        ErrorResponse::NfcUidThrottled,
        ErrorResponse::AudioUnavailable,
        ErrorResponse::Custom(7),
    ];

    for (code, expected) in expected.into_iter().enumerate() {
        let error = ErrorResponse::from_code(code as u8);

        assert_eq!(error, expected);
        assert_eq!(error.is_fatal(), code < 4);
        assert_eq!(
            error.is_fatal(),
            bloop_protocol::message::ErrorResponse::from_code(code as u8).is_fatal()
        );
    }

    assert!(!ErrorResponse::Custom(3).is_fatal());
}

#[test]
fn malformed_error_response_is_reported() {
    for payload in [vec![], vec![1, 2]] {
        let error = ping_response(RawMessage {
            message_type: 0,
            payload,
        })
        .unwrap_err();

        assert!(matches!(
            error,
            RequestError::Malformed(MessageSetError::Malformed { opcode: 0, .. })
        ));
    }
}

#[test]
fn malformed_responses_say_why() {
    let source = |error| match error {
        RequestError::Malformed(MessageSetError::Malformed { source, .. }) => source,
        _ => panic!("not malformed"),
    };

    assert!(matches!(
        source(ping_response(raw(0x06, &[1, 2, 3])).unwrap_err()),
        DecodeError::TrailingBytes { remaining: 3 }
    ));
    assert!(matches!(
        source(ping_response(raw(0x00, &[1, 2])).unwrap_err()),
        DecodeError::TrailingBytes { remaining: 1 }
    ));
    assert!(matches!(
        source(ping_response(raw(0x00, &[])).unwrap_err()),
        DecodeError::UnexpectedEof
    ));
    assert!(matches!(
        source(bloop_response(raw(0x09, &[1])).unwrap_err()),
        DecodeError::UnexpectedEof
    ));
    assert!(matches!(
        source(audio_response(raw(0x0b, &[0, 0, 0, 0, 9])).unwrap_err()),
        DecodeError::TrailingBytes { remaining: 1 }
    ));
    assert!(matches!(
        source(preload_response(raw(0x0d, &[7, 7])).unwrap_err()),
        DecodeError::TrailingBytes { remaining: 2 }
    ));
    assert!(matches!(
        source(preload_response(raw(0x0e, &[0])).unwrap_err()),
        DecodeError::EmptyHash
    ));
}

#[test]
fn routing_takes_the_decoded_message() {
    let raw = RawMessage {
        message_type: 0x81,
        payload: vec![1],
    };
    assert!(matches!(decode_response(raw, Ok(5)), Ok(5)));

    let raw = RawMessage {
        message_type: 0,
        payload: vec![4],
    };
    assert!(matches!(
        decode_response(raw, Ok(5)),
        Err(RequestError::Error(ErrorResponse::UnknownNfcUid))
    ));

    let raw = RawMessage {
        message_type: 0x82,
        payload: vec![1],
    };
    let outcome: Result<u8, RequestError> =
        decode_response(raw, Err(MessageSetError::UnknownOpcode(0x82)));
    match outcome {
        Err(RequestError::UnexpectedResponse(raw)) => {
            assert_eq!((raw.message_type, raw.payload), (0x82, vec![1]));
        }
        _ => panic!("not routed"),
    }
}

#[test]
fn failed_deliveries_have_their_error() {
    let status = ConnectionStatus::Disconnected;

    assert!(matches!(
        send_request(Delivery::Closed, status),
        Err(RequestError::Shutdown)
    ));
    assert!(matches!(
        send_request(Delivery::TimedOut, status),
        Err(RequestError::Disconnected)
    ));
    assert!(matches!(
        send_request(Delivery::TimedOut, ConnectionStatus::Shutdown),
        Err(RequestError::Shutdown)
    ));
    assert!(matches!(
        send_request(Delivery::Unanswered, status),
        Err(RequestError::Shutdown)
    ));
    assert!(matches!(
        send_request(Delivery::Answered(Err(RequestError::Disconnected)), status),
        Err(RequestError::Disconnected)
    ));
    assert_eq!(
        send_request(Delivery::Answered(Ok(ping_request())), status).unwrap(),
        ping_request()
    );
    assert_eq!(exchanged(Some(ping_request())).unwrap(), ping_request());
    assert!(matches!(exchanged(None), Err(RequestError::Disconnected)));
    assert!(configured(true, ConnectionStatus::Disconnected).is_ok());
    assert!(matches!(
        configured(false, ConnectionStatus::Disconnected),
        Err(RequestError::Shutdown)
    ));
    assert!(matches!(
        configured(true, ConnectionStatus::Shutdown),
        Err(RequestError::Shutdown)
    ));
}

#[test]
fn requests_are_what_the_server_reads() {
    let uid = NfcUid::from_bytes(&[1, 2, 3, 4, 5, 6, 7]).unwrap();
    assert_eq!(uid.as_bytes(), [1, 2, 3, 4, 5, 6, 7]);

    match sent(&bloop_request(uid)) {
        ClientMessage::Bloop(bloop) => assert_eq!(bloop.nfc_uid.as_bytes(), uid.as_bytes()),
        _ => panic!("not a bloop"),
    }
    match sent(&audio_request(&[3; 16])) {
        ClientMessage::RetrieveAudio(audio) => {
            assert_eq!(audio.achievement_id.as_bytes(), &[3; 16]);
        }
        _ => panic!("not an audio request"),
    }
    match sent(&preload_request(&DataHash::from_bytes(vec![1, 2]))) {
        ClientMessage::PreloadCheck(check) => {
            assert_eq!(check.audio_manifest_hash.unwrap().as_bytes(), [1, 2]);
        }
        _ => panic!("not a preload check"),
    }
    assert!(matches!(sent(&ping_request()), ClientMessage::Ping(_)));
    assert!(matches!(sent(&quit_request()), ClientMessage::Quit(_)));
}

#[test]
fn request_frames_have_their_bytes() {
    let single = NfcUid::from_bytes(&[1, 2, 3, 4]).unwrap();
    let raw = bloop_request(single);
    assert_eq!(
        (raw.message_type, raw.payload),
        (0x08, vec![4, 1, 2, 3, 4])
    );

    let triple = NfcUid::from_bytes(&[5; 10]).unwrap();
    assert_eq!(
        bloop_request(triple).payload,
        vec![10, 5, 5, 5, 5, 5, 5, 5, 5, 5, 5]
    );

    let raw = preload_request(&None);
    assert_eq!((raw.message_type, raw.payload), (0x0c, vec![0]));
    assert_eq!(ping_request().message_type, 0x05);
    assert_eq!(quit_request().message_type, 0x07);
    assert_eq!(audio_request(&[0; 16]).message_type, 0x0a);
}

#[test]
fn uids_have_standard_lengths() {
    for length in 0..12 {
        let uid = NfcUid::from_bytes(&vec![1; length]);
        assert_eq!(uid.is_some(), [4, 7, 10].contains(&length));
    }
}

#[test]
fn hashes_have_1_to_255_bytes() {
    assert!(DataHash::from_bytes(vec![]).is_none());
    assert!(DataHash::from_bytes(vec![0; 256]).is_none());

    let hash = DataHash::from_bytes(vec![0x0a; 255]).unwrap();
    assert_eq!(hash.as_bytes(), [0x0a; 255]);
    assert_eq!(hash.clone(), hash);

    let hash = DataHash::from_bytes(vec![0x00, 0xaf, 0x7c]).unwrap();
    assert_eq!(hash.text(), "00af7c");
}

#[test]
fn accepted_bloop_carries_the_achievements() {
    let raw = frame(&BloopAccepted {
        achievements: outside_records(),
    });
    assert_eq!(bloop_response(raw).unwrap(), records());
    assert_eq!(records()[0].clone(), records()[0]);

    let raw = frame(&bloop_protocol::message::ErrorResponse::NfcUidThrottled);
    assert!(matches!(
        bloop_response(raw),
        Err(RequestError::Error(ErrorResponse::NfcUidThrottled))
    ));

    let mut raw = frame(&BloopAccepted {
        achievements: outside_records(),
    });
    raw.payload.push(0);
    assert!(matches!(
        bloop_response(raw),
        Err(RequestError::Malformed(MessageSetError::Malformed {
            opcode: 0x09,
            ..
        }))
    ));
}

#[test]
fn audio_data_arrives_unchanged() {
    let raw = frame(&AudioData {
        data: vec![1, 2, 3],
    });
    assert_eq!(raw.payload, vec![3, 0, 0, 0, 1, 2, 3]);
    assert_eq!(audio_response(raw).unwrap(), vec![1, 2, 3]);

    let raw = frame(&bloop_protocol::message::ErrorResponse::AudioUnavailable);
    assert!(matches!(
        audio_response(raw),
        Err(RequestError::Error(ErrorResponse::AudioUnavailable))
    ));
    assert!(matches!(
        audio_response(frame(&Pong)),
        Err(RequestError::UnexpectedResponse(_))
    ));
    assert!(matches!(
        audio_response(RawMessage {
            message_type: 0x0b,
            payload: vec![4, 0, 0, 0, 1],
        }),
        Err(RequestError::Malformed(_))
    ));
}

#[test]
fn preload_outcomes_are_told_apart() {
    assert_eq!(
        preload_response(frame(&PreloadMatch)).unwrap(),
        PreloadOutcome::Match
    );

    let raw = frame(&PreloadMismatch {
        audio_manifest_hash: bloop_protocol::DataHash::try_from(vec![1u8, 2]).unwrap(),
        achievements: outside_records(),
    });
    assert_eq!(
        preload_response(raw).unwrap(),
        PreloadOutcome::Mismatch {
            audio_manifest_hash: DataHash::from_bytes(vec![1, 2]).unwrap(),
            achievements: records(),
        }
    );

    assert!(matches!(
        preload_response(RawMessage {
            message_type: 0x0d,
            payload: vec![0],
        }),
        Err(RequestError::Malformed(MessageSetError::Malformed {
            opcode: 0x0d,
            ..
        }))
    ));
    assert!(matches!(
        preload_response(RawMessage {
            message_type: 0x0e,
            payload: vec![],
        }),
        Err(RequestError::Malformed(MessageSetError::Malformed {
            opcode: 0x0e,
            ..
        }))
    ));
    assert!(matches!(
        preload_response(frame(&Pong)),
        Err(RequestError::UnexpectedResponse(_))
    ));
    assert!(matches!(
        preload_response(frame(
            &bloop_protocol::message::ErrorResponse::UnexpectedMessage
        )),
        Err(RequestError::Error(ErrorResponse::UnexpectedMessage))
    ));
}
