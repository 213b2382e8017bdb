use bloop_client_framework::client::{ConnectEnd, ConnectionConfig};
use bloop_client_framework::connection::{
    advance, attempt_end, authenticate, authentication_request, located, negotiate_version, start,
    ConnectAction, ConnectError, ConnectEvent, ConnectOutcome, ConnectPhase, ConnectStep,
};
use bloop_client_framework::protocol::{
    Capabilities, ErrorResponse, IpAddress, MessageSetError, RawMessage,
};
use bloop_client_framework::request::RequestError;
use bloop_protocol::codec::{DecodeError, EncodeError};
use bloop_protocol::message::ClientMessage;
use bloop_protocol::set::{MessageSet, NoExtension};

fn config() -> ConnectionConfig {
    ConnectionConfig {
        host: "bloop.example.com".to_string(),
        port: 12345,
        client_id: "client".to_string(),
        client_secret: "secret".to_string(),
    }
}

fn raw(message_type: u8, payload: &[u8]) -> RawMessage {
    RawMessage {
        message_type,
        payload: payload.to_vec(),
    }
}

fn phase(step: &ConnectStep) -> ConnectPhase {
    step.phase.unwrap()
}

fn result(step: ConnectStep) -> Result<ConnectOutcome, ConnectError> {
    assert!(step.phase.is_none());

    match step.action {
        ConnectAction::Finish(result) => result,
        _ => panic!("not finished"),
    }
}

fn exchange(step: ConnectStep) -> RawMessage {
    match step.action {
        ConnectAction::Exchange(raw) => raw,
        _ => panic!("no exchange"),
    }
}

#[test]
fn attempt_goes_all_the_way() {
    let config = config();
    let address = IpAddress::V4([192, 168, 0, 7]);

    let step = start();
    assert!(matches!(step.action, ConnectAction::Resolve));

    let step = advance(&config, phase(&step), ConnectEvent::Resolved(true));
    assert!(matches!(step.action, ConnectAction::Dial));

    let step = advance(&config, phase(&step), ConnectEvent::Dialed);
    assert!(matches!(step.action, ConnectAction::Locate));

    let step = advance(&config, phase(&step), ConnectEvent::Located(address));
    assert!(matches!(step.action, ConnectAction::Secure));

    let step = advance(&config, phase(&step), ConnectEvent::Secured);
    let waiting = phase(&step);
    assert_eq!(exchange(step), raw(0x01, &[3, 3]));

    let handshake = raw(0x02, &[3, 1, 0, 0, 0, 0, 0, 0, 0x80]);
    let step = advance(&config, waiting, ConnectEvent::Answered(handshake));
    let waiting = phase(&step);
    let capabilities = Capabilities {
        bits: 0x8000_0000_0000_0001,
    };
    assert_eq!(waiting, ConnectPhase::Authenticating(capabilities));
    assert_eq!(
        exchange(step),
        raw(0x03, b"\x06client\x06secret\x04\xc0\xa8\x00\x07")
    );

    let step = advance(&config, waiting, ConnectEvent::Answered(raw(0x04, &[])));
    assert_eq!(
        result(step).unwrap(),
        ConnectOutcome::Connected(capabilities)
    );
}

#[test]
fn failures_on_the_way_have_their_error() {
    let config = config();

    assert!(matches!(
        result(advance(&config, ConnectPhase::Resolving, ConnectEvent::Resolved(false))),
        Err(ConnectError::Resolve(host)) if host == "bloop.example.com"
    ));
    assert!(matches!(
        result(advance(&config, ConnectPhase::Dialing, ConnectEvent::TimedOut)),
        Err(ConnectError::Timeout)
    ));
    assert!(matches!(
        result(advance(
            &config,
            ConnectPhase::Dialing,
            ConnectEvent::Failed(std::io::Error::from(std::io::ErrorKind::ConnectionRefused)),
        )),
        Err(ConnectError::Io(error)) if error.kind() == std::io::ErrorKind::ConnectionRefused
    ));
    assert!(matches!(
        result(advance(
            &config,
            ConnectPhase::Negotiating(IpAddress::V4([0; 4])),
            ConnectEvent::Broken(bloop_protocol::frame::FrameError::PayloadTooLarge {
                length: 9,
                max: 8,
            }),
        )),
        Err(ConnectError::Frame(_))
    ));
}

#[test]
fn server_names_are_checked() {
    let address = IpAddress::V4([127, 0, 0, 1]);

    for (host, valid) in [
        ("bloop.example.com", true),
        ("127.0.0.1", true),
        ("::1", true),
        ("not a name", false),
        ("", false),
    ] {
        let config = ConnectionConfig {
            host: host.to_string(),
            ..config()
        };
        let step = advance(&config, ConnectPhase::Locating, ConnectEvent::Located(address));

        if valid {
            assert!(matches!(step.action, ConnectAction::Secure));
            assert_eq!(phase(&step), ConnectPhase::Securing(address));
        } else {
            assert!(matches!(
                result(step),
                Err(ConnectError::InvalidDnsName(name)) if name == host
            ));
        }
    }

    assert!(matches!(
        located(&config(), address, true).action,
        ConnectAction::Secure
    ));
    assert!(matches!(
        result(located(&config(), address, false)),
        Err(ConnectError::InvalidDnsName(_))
    ));
}

#[test]
fn version_must_be_the_clients() {
    assert!(matches!(
        negotiate_version(raw(0x02, &[4, 0, 0, 0, 0, 0, 0, 0, 0])),
        Err(ConnectError::UnsupportedVersion(4))
    ));
    assert!(matches!(
        negotiate_version(raw(0x00, &[2])),
        Err(ConnectError::UnsupportedVersionRange)
    ));
    assert!(matches!(
        negotiate_version(raw(0x00, &[1])),
        Err(ConnectError::Unexpected(RequestError::Error(
            ErrorResponse::MalformedMessage
        )))
    ));
    assert!(matches!(
        negotiate_version(raw(0x02, &[3])),
        Err(ConnectError::Unexpected(RequestError::Malformed(
            MessageSetError::Malformed {
                opcode: 0x02,
                source: DecodeError::UnexpectedEof,
            }
        )))
    ));
    assert!(matches!(
        negotiate_version(raw(0x06, &[])),
        Err(ConnectError::Unexpected(RequestError::UnexpectedResponse(_)))
    ));
    assert_eq!(
        negotiate_version(raw(0x02, &[3, 2, 1, 0, 0, 0, 0, 0, 0])).unwrap(),
        Capabilities { bits: 0x0102 }
    );
}

#[test]
fn rejected_credentials_are_no_error() {
    assert!(!authenticate(raw(0x00, &[3])).unwrap());
    assert!(authenticate(raw(0x04, &[])).unwrap());
    assert!(matches!(
        authenticate(raw(0x00, &[0])),
        Err(ConnectError::Unexpected(RequestError::Error(
            ErrorResponse::UnexpectedMessage
        )))
    ));
    assert!(matches!(
        authenticate(raw(0x04, &[1])),
        Err(ConnectError::Unexpected(RequestError::Malformed(
            MessageSetError::Malformed {
                opcode: 0x04,
                source: DecodeError::TrailingBytes { remaining: 1 },
            }
        )))
    ));

    let waiting = ConnectPhase::Authenticating(Capabilities { bits: 0 });
    let step = advance(&config(), waiting, ConnectEvent::Answered(raw(0x00, &[3])));
    assert_eq!(result(step).unwrap(), ConnectOutcome::InvalidCredentials);
}

#[test]
fn credentials_must_fit_their_prefix() {
    let fitting = ConnectionConfig {
        client_id: "i".repeat(255),
        client_secret: "s".repeat(255),
        ..config()
    };
    let address = IpAddress::V6([1; 16]);
    let request = authentication_request(&fitting, &address).unwrap();
    let sent = ClientMessage::<NoExtension>::decode(&bloop_protocol::frame::RawMessage::new(
        request.message_type,
        request.payload,
    ));
    match sent.unwrap() {
        ClientMessage::Authentication(sent) => {
            assert_eq!(sent.client_id, fitting.client_id);
            assert_eq!(sent.client_secret, fitting.client_secret);
            assert_eq!(sent.ip_address.to_string(), "101:101:101:101:101:101:101:101");
        }
        _ => panic!("not an authentication"),
    }

    let long = ConnectionConfig {
        client_secret: "ß".repeat(128),
        ..config()
    };
    assert!(matches!(
        authentication_request(&long, &address),
        Err(ConnectError::Encode(EncodeError::StringTooLong { length: 256 }))
    ));

    let waiting = ConnectPhase::Negotiating(address);
    let handshake = raw(0x02, &[3, 0, 0, 0, 0, 0, 0, 0, 0]);
    let step = advance(&long, waiting, ConnectEvent::Answered(handshake));
    assert!(matches!(result(step), Err(ConnectError::Encode(_))));
}

#[test]
fn results_end_the_attempt() {
    let capabilities = Capabilities { bits: 1 };

    assert_eq!(
        attempt_end(&Ok(ConnectOutcome::Connected(capabilities))),
        ConnectEnd::Connected(capabilities)
    );
    assert_eq!(
        attempt_end(&Ok(ConnectOutcome::InvalidCredentials)),
        ConnectEnd::InvalidCredentials
    );
    assert_eq!(
        attempt_end(&Err(ConnectError::Timeout)),
        ConnectEnd::Failed
    );
}
