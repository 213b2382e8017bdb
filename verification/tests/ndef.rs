use bloop_client_framework::nfc::ndef::{
    parse_ndef_text_record, NdefError, NdefMessageParser,
};

/// Builds a short text record: "en" language code plus the given text.
fn text_record(text: &str) -> Vec<u8> {
    let mut record = vec![0xd1, 0x01];
    record.push((text.len() + 3) as u8);
    record.push(0x54);
    record.push(0x02);
    record.extend(b"en");
    record.extend(text.as_bytes());

    record
}

fn fault(data: &[u8]) -> String {
    match parse_ndef_text_record(data) {
        Ok(_) => panic!("parsed"),
        Err(error) => error.message(),
    }
}

#[test]
fn parses_short_text_record() {
    let record = parse_ndef_text_record(&text_record("bloop")).unwrap();
    assert_eq!(record.text().unwrap(), "bloop");
}

#[test]
fn hostile_language_code_length_is_an_error() {
    // Status byte claims a 63-byte language code in a 1-byte payload.
    let data = [0xd1, 0x01, 0x01, 0x54, 0x3f];
    let record = parse_ndef_text_record(&data).unwrap();

    assert!(matches!(record.text(), Err(NdefError::Truncated(_))));
}

#[test]
fn rejects_non_text_records() {
    // URI record (type 0x55).
    let data = [0xd1, 0x01, 0x01, 0x55, 0x00];
    assert!(matches!(
        parse_ndef_text_record(&data),
        Err(NdefError::NotTextRecord)
    ));
}

#[test]
fn parser_extracts_message_from_tlv_stream() {
    let record = text_record("hello");
    let mut stream = vec![0x00, 0x00, 0x03, record.len() as u8];
    stream.extend(&record);
    stream.push(0xfe);

    let mut parser = NdefMessageParser::new();

    for chunk in stream.chunks(4) {
        parser.add_data(chunk);

        if parser.is_done() {
            break;
        }
    }

    assert!(parser.is_done());
    assert_eq!(parser.data(), record.as_slice());
}

#[test]
fn parser_handles_three_byte_length_form() {
    // 300-byte message requires the 0xff-marked two-byte length.
    let message = vec![0x55; 300];
    let mut stream = vec![0x03, 0xff, 0x01, 0x2c];
    stream.extend(&message);

    let mut parser = NdefMessageParser::new();
    parser.add_data(&stream);

    assert!(parser.is_done());
    assert_eq!(parser.data().len(), 300);
}

#[test]
fn chunking_does_not_change_the_message() {
    let record = text_record("any cut will do");
    let mut stream = vec![0x01, 0x03, record.len() as u8];
    stream.extend(&record);
    stream.extend([0xfe, 0x00, 0x00]);

    for size in 1..=stream.len() {
        let mut parser = NdefMessageParser::default();

        for chunk in stream.chunks(size) {
            parser.add_data(chunk);
        }

        assert!(parser.is_done());
        assert_eq!(parser.data(), record.as_slice());
    }
}

#[test]
fn parser_reports_how_far_it_is() {
    let mut parser = NdefMessageParser::new();
    assert!(!parser.has_started());

    parser.add_data(&[0x00, 0x01, 0x02]);
    assert!(!parser.has_started());
    assert!(!parser.is_done());

    parser.add_data(&[0x03]);
    assert!(parser.has_started());
    assert!(!parser.is_done());

    parser.add_data(&[0x02, 0xaa]);
    assert!(!parser.is_done());
    assert_eq!(parser.data(), [0xaa]);

    parser.add_data(&[0xbb, 0xcc]);
    assert!(parser.is_done());
    assert_eq!(parser.data(), [0xaa, 0xbb]);
}

#[test]
fn length_must_be_known() {
    let mut parser = NdefMessageParser::new();

    parser.add_data(&[0x03, 0xff, 0x00]);
    assert!(!parser.is_done());

    parser.add_data(&[0x01]);
    assert!(!parser.is_done());

    parser.add_data(&[0x7f]);
    assert!(parser.is_done());
    assert_eq!(parser.data(), [0x7f]);
}

#[test]
fn empty_message_is_done_at_its_length() {
    for stream in [
        vec![0x03, 0x00],
        vec![0x03, 0x00, 0xfe],
        vec![0x03, 0xff, 0x00, 0x00, 0xfe],
    ] {
        for size in 1..=stream.len() {
            let mut parser = NdefMessageParser::new();

            for chunk in stream.chunks(size) {
                parser.add_data(chunk);
            }

            assert!(parser.is_done());
            assert!(parser.data().is_empty());
        }
    }
}

#[test]
fn what_follows_the_message_is_dropped() {
    let mut parser = NdefMessageParser::new();
    parser.add_data(&[0x03, 0x02, 0xaa, 0xbb, 0xfe]);
    parser.add_data(&[0x03, 0x01, 0xcc]);

    assert!(parser.is_done());
    assert_eq!(parser.data(), [0xaa, 0xbb]);
}

#[test]
fn every_missing_part_is_named() {
    let cases: [(&[u8], &str); 7] = [
        (&[], "flags"),
        (&[0xd1], "type length"),
        (&[0xd1, 0x01], "payload length"),
        (&[0xd9, 0x01, 0x00], "ID length"),
        (&[0xd1, 0x01, 0x00], "type"),
        (&[0xd9, 0x01, 0x00, 0x02, 0x54, 0x61], "ID"),
        (&[0xd1, 0x01, 0x02, 0x54, 0x00], "payload"),
    ];

    for (data, part) in cases {
        assert_eq!(
            fault(data),
            format!("record is truncated: {part} missing")
        );
    }
}

#[test]
fn long_payload_lengths_are_big_endian() {
    let mut record = vec![0xc1, 0x01, 0x00, 0x00, 0x01, 0x04, 0x54, 0x00];
    record.extend(vec![0x61; 0x103]);

    let parsed = parse_ndef_text_record(&record).unwrap();
    assert_eq!(parsed.text().unwrap().len(), 0x103);

    record.pop();
    assert_eq!(fault(&record), "record is truncated: payload missing");
    assert_eq!(
        fault(&[0xc1, 0x01, 0x00, 0x00, 0x00]),
        "record is truncated: payload length missing"
    );
}

#[test]
fn ids_are_skipped() {
    let data = [0xd9, 0x01, 0x02, 0x03, 0x54, 0x69, 0x64, 0x21, 0x00, 0x41];
    let record = parse_ndef_text_record(&data).unwrap();

    assert_eq!(record.text().unwrap(), "A");
}

#[test]
fn refused_records_say_why() {
    assert_eq!(fault(&[0xf1]), "chunked records are not supported");
    assert_eq!(
        fault(&[0xd2, 0x01, 0x00, 0x54]),
        "not a well-known payload type"
    );
    assert_eq!(fault(&[0xd1, 0x00, 0x00]), "not a text record");
    assert_eq!(fault(&[0xd1, 0x02, 0x00, 0x54, 0x54]), "not a text record");
}

#[test]
fn text_faults_say_why() {
    let invalid = parse_ndef_text_record(&[0xd1, 0x01, 0x03, 0x54, 0x00, 0x41, 0xff]).unwrap();
    let error = invalid.text().unwrap_err();
    assert_eq!(error.message(), "text payload is not valid UTF-8");
    match error {
        NdefError::InvalidUtf8(error) => {
            assert_eq!(Err(error), String::from_utf8(vec![0x41, 0xff]));
        }
        _ => panic!("another error"),
    }

    let short = parse_ndef_text_record(&[0xd1, 0x01, 0x01, 0x54, 0x3f]).unwrap();
    assert_eq!(
        short.text().unwrap_err().message(),
        "record is truncated: text payload missing"
    );
}

#[test]
fn empty_payload_is_empty_text() {
    let record = parse_ndef_text_record(&[0xd1, 0x01, 0x00, 0x54]).unwrap();
    assert_eq!(record.text().unwrap(), "");
}

#[test]
fn text_keeps_its_characters() {
    let record = parse_ndef_text_record(&text_record("grüße ☃")).unwrap();
    assert_eq!(record.text().unwrap(), "grüße ☃");
}
