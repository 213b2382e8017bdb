use std::path::PathBuf;

use bloop_client_framework::nfc::mfrc522::{
    advance_init, advance_serve, check_for_release, nfc_uid_from_mfrc522, spawn_outcome, start_init,
    InitAction, InitEvent, InitPhase, Mfrc522InitError, NfcReaderConfig, ReadAction, ReadPhase,
    ReaderRequest, ServeAction, ServeEvent, ServePhase, TagReader, WakeUp,
};
use bloop_client_framework::nfc::{read_ndef_text, roundtrip, NfcReaderError, Roundtrip};
use bloop_client_framework::protocol::NfcUid;

fn uid() -> NfcUid {
    NfcUid::from_bytes(&[1, 2, 3, 4]).unwrap()
}

/// Sixteen bytes of a tag, zero behind the given ones.
fn pages(bytes: &[u8]) -> Option<[u8; 16]> {
    let mut pages = [0; 16];
    pages[..bytes.len()].copy_from_slice(bytes);

    Some(pages)
}

fn reason(action: ReadAction) -> String {
    match action {
        ReadAction::Finish(Err(reason)) => reason,
        _ => panic!("not failed"),
    }
}

fn reading(size: u8) -> TagReader {
    let (mut reader, action) = TagReader::start();
    assert!(matches!(action, ReadAction::Read(3)));
    assert_eq!(reader.phase(), ReadPhase::Capabilities);

    let action = reader.step(pages(&[0xe1, 0x10, size, 0x00]));
    assert!(matches!(action, ReadAction::Read(4)));

    reader
}

#[test]
fn answers_reach_the_caller() {
    assert_eq!(roundtrip(Roundtrip::Answered(uid())).unwrap(), uid());
    assert!(matches!(
        roundtrip::<NfcUid>(Roundtrip::Closed),
        Err(NfcReaderError::Disconnected)
    ));
    assert!(matches!(
        roundtrip::<()>(Roundtrip::Unanswered),
        Err(NfcReaderError::Disconnected)
    ));
    assert_eq!(
        read_ndef_text(Roundtrip::Answered(Ok("hello".to_string()))).unwrap(),
        "hello"
    );
    assert!(matches!(
        read_ndef_text(Roundtrip::Answered(Err("torn".to_string()))),
        Err(NfcReaderError::Read(reason)) if reason == "torn"
    ));
    assert!(matches!(
        read_ndef_text(Roundtrip::Closed),
        Err(NfcReaderError::Disconnected)
    ));
}

#[test]
fn wiring_has_its_defaults() {
    let config = NfcReaderConfig::default();

    assert_eq!(config.spi_dev_path, PathBuf::from("/dev/spidev0.0"));
    assert_eq!(config.gpio_dev_path, PathBuf::from("/dev/gpiochip0"));
    assert_eq!(config.reset_pin_line, 25);
    assert_eq!(config.clone().spi_dev_path, config.spi_dev_path);
}

#[test]
fn initialization_resets_the_chip() {
    let (mut phase, mut action) = start_init();
    let mut seen = Vec::new();

    while phase != InitPhase::Finished {
        seen.push(format!("{action:?}"));
        (phase, action) = advance_init(phase, InitEvent::Done);
    }

    assert_eq!(
        seen,
        [
            "OpenSpi",
            "ConfigureSpi",
            "RequestLine",
            "Wait(150)",
            "ReleaseLine",
            "Wait(50)",
            "InitChip"
        ]
    );
    assert!(matches!(action, InitAction::Finish(Ok(()))));
}

#[test]
fn initialization_failures_have_their_error() {
    let error = std::io::Error::from(std::io::ErrorKind::NotFound);
    let (_, action) = advance_init(InitPhase::Opening, InitEvent::SpiFailed(error));
    assert!(matches!(
        action,
        InitAction::Finish(Err(Mfrc522InitError::Io(_)))
    ));

    let (_, action) = advance_init(
        InitPhase::Releasing,
        InitEvent::GpioFailed("line".to_string()),
    );
    assert!(matches!(
        action,
        InitAction::Finish(Err(Mfrc522InitError::Gpio(reason))) if reason == "line"
    ));

    let (phase, action) = advance_init(InitPhase::Waking, InitEvent::ChipFailed("chip".to_string()));
    assert_eq!(phase, InitPhase::Finished);
    assert!(matches!(
        action,
        InitAction::Finish(Err(Mfrc522InitError::Chip(reason))) if reason == "chip"
    ));
}

#[test]
fn dead_reader_thread_is_an_error() {
    assert!(spawn_outcome(Some(Ok(()))).is_ok());
    assert!(matches!(
        spawn_outcome(Some(Err(Mfrc522InitError::Gpio("line".to_string())))),
        Err(Mfrc522InitError::Gpio(_))
    ));
    assert!(matches!(
        spawn_outcome(None),
        Err(Mfrc522InitError::Chip(reason))
            if reason == "reader thread died during initialization"
    ));
}

#[test]
fn cards_are_polled_for() {
    let (phase, action) = advance_serve(
        ServePhase::Idle,
        ServeEvent::Requested(ReaderRequest::WaitForCard),
    );
    assert!(matches!(action, ServeAction::CheckCaller));
    let (phase, action) = advance_serve(phase, ServeEvent::Abandoned(false));
    assert!(matches!(action, ServeAction::Select));
    let (phase, action) = advance_serve(phase, ServeEvent::Selected(None));
    assert!(matches!(action, ServeAction::Pause(50)));
    let (phase, action) = advance_serve(phase, ServeEvent::Paused);
    assert!(matches!(action, ServeAction::CheckCaller));
    let (phase, _) = advance_serve(phase, ServeEvent::Abandoned(false));
    let (phase, action) = advance_serve(phase, ServeEvent::Selected(Some(uid())));
    assert_eq!(phase, ServePhase::Idle);
    assert!(matches!(action, ServeAction::AnswerCard(found) if found == uid()));
}

#[test]
fn removals_are_polled_for() {
    let (phase, _) = advance_serve(
        ServePhase::Idle,
        ServeEvent::Requested(ReaderRequest::WaitForRemoval),
    );
    let (phase, action) = advance_serve(phase, ServeEvent::Abandoned(false));
    assert!(matches!(action, ServeAction::Probe));
    let (phase, action) = advance_serve(phase, ServeEvent::Probed(false));
    assert!(matches!(action, ServeAction::Pause(50)));
    let (phase, _) = advance_serve(phase, ServeEvent::Paused);
    assert_eq!(phase, ServePhase::RemovalWanted);
    let (phase, _) = advance_serve(phase, ServeEvent::Abandoned(false));
    let (phase, action) = advance_serve(phase, ServeEvent::Probed(true));
    assert_eq!(phase, ServePhase::Idle);
    assert!(matches!(action, ServeAction::AnswerRemoval));
}

#[test]
fn abandoned_waits_are_dropped() {
    for wanted in [ServePhase::CardWanted, ServePhase::RemovalWanted] {
        let (phase, action) = advance_serve(wanted, ServeEvent::Abandoned(true));
        assert_eq!(phase, ServePhase::Idle);
        assert!(matches!(action, ServeAction::Receive));
    }

    let (phase, action) = advance_serve(ServePhase::Idle, ServeEvent::HandlesGone);
    assert_eq!(phase, ServePhase::Stopped);
    assert!(matches!(action, ServeAction::Stop));
}

#[test]
fn texts_are_answered() {
    let (phase, action) = advance_serve(
        ServePhase::Idle,
        ServeEvent::Requested(ReaderRequest::ReadNdefText),
    );
    assert!(matches!(action, ServeAction::ReadText));
    let (phase, action) = advance_serve(phase, ServeEvent::TextRead(Ok("hello".to_string())));
    assert_eq!(phase, ServePhase::Idle);
    assert!(matches!(action, ServeAction::AnswerText(Ok(text)) if text == "hello"));
}

#[test]
fn release_takes_two_silent_wake_ups() {
    assert_eq!(check_for_release(WakeUp::Answered, None), Some(false));
    assert_eq!(check_for_release(WakeUp::Failed, None), None);
    assert_eq!(check_for_release(WakeUp::Collision, None), None);
    assert_eq!(
        check_for_release(WakeUp::Failed, Some(WakeUp::Answered)),
        Some(false)
    );
    assert_eq!(
        check_for_release(WakeUp::Failed, Some(WakeUp::Collision)),
        Some(false)
    );
    assert_eq!(
        check_for_release(WakeUp::Collision, Some(WakeUp::Failed)),
        Some(true)
    );
}

#[test]
fn chip_uids_are_protocol_uids() {
    assert_eq!(nfc_uid_from_mfrc522(&[1, 2, 3, 4]), uid());
    assert_eq!(
        nfc_uid_from_mfrc522(&[9; 10]).as_bytes(),
        [9; 10].as_slice()
    );
}

#[test]
fn tag_text_is_read() {
    let mut reader = reading(18);
    let action = reader.step(pages(&[
        0x00, 0x00, 0x03, 0x0c, 0xd1, 0x01, 0x08, 0x54, 0x02, b'e', b'n', b'b', b'l', b'o', b'o',
        b'p',
    ]));
    assert!(matches!(action, ReadAction::Finish(Ok(text)) if text == "bloop"));
    assert_eq!(reader.phase(), ReadPhase::Finished);
}

#[test]
fn empty_message_holds_no_record() {
    let mut reader = reading(2);
    let action = reader.step(pages(&[0x01, 0x03, 0x00, 0xfe]));
    assert_eq!(reason(action), "record is truncated: flags missing");
}

#[test]
fn length_may_span_pages() {
    let mut reader = reading(18);
    let mut first = [0; 16];
    first[13..].copy_from_slice(&[0x03, 0xff, 0x00]);
    let action = reader.step(Some(first));
    assert!(matches!(action, ReadAction::Read(8)));

    let action = reader.step(pages(&[0x06, 0xd1, 0x01, 0x02, 0x54, 0x00, b'A', 0xfe]));
    assert!(matches!(action, ReadAction::Finish(Ok(text)) if text == "A"));
}

#[test]
fn long_texts_span_pages() {
    let mut reader = reading(18);
    let mut stream = vec![0x03, 0x19, 0xd1, 0x01, 0x15, 0x54, 0x02, b'e', b'n'];
    stream.extend(b"eighteen long text");

    let action = reader.step(pages(&stream[..16]));
    assert!(matches!(action, ReadAction::Read(8)));
    let action = reader.step(pages(&stream[16..]));
    assert!(matches!(action, ReadAction::Finish(Ok(text)) if text == "eighteen long text"));
}

#[test]
fn unreadable_tags_say_why() {
    let (mut reader, _) = TagReader::start();
    assert_eq!(
        reason(reader.step(None)),
        "failed to read capability container"
    );

    let mut reader = reading(18);
    assert_eq!(reason(reader.step(None)), "failed to read block 4");

    let mut reader = reading(18);
    reader.step(pages(&[]));
    assert_eq!(
        reason(reader.step(pages(&[]))),
        "no NDEF message found in first sector"
    );

    let mut reader = reading(4);
    reader.step(pages(&[0x03, 0x30]));
    assert_eq!(reason(reader.step(pages(&[]))), "NDEF message incomplete");

    let (mut reader, _) = TagReader::start();
    assert_eq!(
        reason(reader.step(pages(&[0, 0, 1, 0]))),
        "NDEF message incomplete"
    );

    let mut reader = reading(18);
    assert_eq!(
        reason(reader.step(pages(&[0x03, 0x01, 0xf1]))),
        "chunked records are not supported"
    );
}

#[test]
fn message_behind_the_last_address_is_incomplete() {
    let mut reader = reading(0xff);
    let mut action = reader.step(pages(&[0x03, 0xff, 0x10, 0x00]));
    let mut last = 4;

    while let ReadAction::Read(page) = action {
        assert_eq!(page, last + 4);
        last = page;
        action = reader.step(pages(&[]));
    }

    assert_eq!(last, 252);
    assert_eq!(reason(action), "NDEF message incomplete");
}
