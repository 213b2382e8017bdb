//! Connection establishment: the way from a host name to an authenticated
//! connection.
//!
//! [`advance`] decides; it performs nothing itself. It takes where an attempt
//! stands and what happened, and returns what to do next.

use vstd::pervasive::unreached;
use vstd::prelude::*;

use crate::client::{ConnectEnd, ConnectionConfig};
use crate::protocol::{
    authentication_fault, authentication_wire, decode_authentication_accepted, decode_server_handshake,
    encode_authentication, encode_client_handshake, fits_authentication, server_handshake_wire,
    Capabilities, ErrorResponse, IpAddress, RawMessage, AUTHENTICATION, AUTHENTICATION_ACCEPTED,
    CLIENT_HANDSHAKE, ERROR_RESPONSE, SERVER_HANDSHAKE,
};
use crate::request::{decode_response, is_refused, RequestError};

verus! {

/// The one protocol version the client speaks.
pub const PROTOCOL_VERSION: u8 = 3;

/// Why an operation of the system failed, carried along unread.
#[verifier::external_type_specification]
#[verifier::external_body]
pub struct ExIoError(std::io::Error);

/// Why a frame could not be exchanged, carried along unread.
#[verifier::external_type_specification]
#[verifier::external_body]
pub struct ExFrameError(bloop_protocol::frame::FrameError);

/// Errors that can occur while establishing a connection.
#[derive(Debug)]
pub enum ConnectError {
    /// The host name has no address.
    Resolve(String),
    /// The host name cannot name a TLS server.
    InvalidDnsName(String),
    /// The network or the TLS handshake failed.
    Io(std::io::Error),
    /// A frame could not be exchanged.
    Frame(bloop_protocol::frame::FrameError),
    /// The credentials could not be encoded.
    Encode(bloop_protocol::codec::EncodeError),
    /// The way up to the TLS session took too long.
    Timeout,
    /// The server accepted a version the client does not speak.
    UnsupportedVersion(u8),
    /// The server does not speak the client's version.
    UnsupportedVersionRange,
    /// The server sent something else than the answer.
    Unexpected(RequestError),
}

/// How an attempt that did not fail ended.
#[derive(Clone, Copy, Debug, Eq, PartialEq, Structural)]
pub enum ConnectOutcome {
    /// The connection is authenticated.
    Connected(Capabilities),
    /// The server rejected the credentials.
    InvalidCredentials,
}

/// Where an attempt stands.
#[derive(Clone, Copy, Debug, Eq, PartialEq)]
pub enum ConnectPhase {
    /// Waiting for the addresses of the host.
    Resolving,
    /// Waiting for the TCP connection.
    Dialing,
    /// Waiting for the local address of the TCP connection.
    Locating,
    /// Waiting for the TLS session, from the given local address.
    Securing(IpAddress),
    /// Waiting for the server's handshake.
    Negotiating(IpAddress),
    /// Waiting for the server's verdict on the credentials, with the
    /// capabilities it declared.
    Authenticating(Capabilities),
}

/// What happened to an attempt.
#[derive(Debug)]
pub enum ConnectEvent {
    /// The way up to the TLS session exceeded the I/O timeout.
    TimedOut,
    /// The lookup ended, with an address or without one.
    Resolved(bool),
    /// The TCP connection to the first address stands.
    Dialed,
    /// The TCP connection has the given local address.
    Located(IpAddress),
    /// The TLS session stands.
    Secured,
    /// The network or the TLS handshake failed.
    Failed(std::io::Error),
    /// The frame could not be exchanged.
    Broken(bloop_protocol::frame::FrameError),
    /// The server answered the frame.
    Answered(RawMessage),
}

/// What to do next.
#[derive(Debug)]
pub enum ConnectAction {
    /// Look the host up.
    Resolve,
    /// Connect to the first address.
    Dial,
    /// Ask for the local address.
    Locate,
    /// Start the TLS session under the host's name.
    Secure,
    /// Exchange the frame.
    Exchange(RawMessage),
    /// Nothing; the attempt is over.
    Finish(Result<ConnectOutcome, ConnectError>),
}

/// Where an attempt stands and what to do next; nowhere once it is over.
#[derive(Debug)]
pub struct ConnectStep {
    pub phase: Option<ConnectPhase>,
    pub action: ConnectAction,
}

/// Whether a host can name a TLS server.
pub uninterp spec fn valid_server_name(host: Seq<char>) -> bool;

/// `rustls::pki_types::ServerName::try_from` on a string: whether it takes
/// the host as a DNS name or an IP address.
#[verifier::external_body]
fn is_server_name(host: &str) -> (valid: bool)
    ensures
        valid == valid_server_name(host@),
{
    rustls::pki_types::ServerName::try_from(host).is_ok()
}

/// Which events can happen where an attempt stands.
pub open spec fn can_happen(phase: ConnectPhase, event: ConnectEvent) -> bool {
    match event {
        ConnectEvent::TimedOut => phase is Resolving || phase is Dialing || phase is Securing,
        ConnectEvent::Resolved(_) => phase is Resolving,
        ConnectEvent::Dialed => phase is Dialing,
        ConnectEvent::Located(_) => phase is Locating,
        ConnectEvent::Secured => phase is Securing,
        ConnectEvent::Failed(_) => phase is Dialing || phase is Locating || phase is Securing,
        ConnectEvent::Broken(_) | ConnectEvent::Answered(_) => phase is Negotiating
            || phase is Authenticating,
    }
}

/// What the answer to the client's handshake comes to.
pub open spec fn is_negotiated(
    raw: RawMessage,
    outcome: Result<Capabilities, ConnectError>,
) -> bool {
    if raw.message_type == ERROR_RESPONSE && raw.payload@ == seq![2u8] {
        outcome == Err::<Capabilities, ConnectError>(ConnectError::UnsupportedVersionRange)
    } else if raw.message_type == SERVER_HANDSHAKE && raw.payload@.len() == 9 {
        if raw.payload@[0] == PROTOCOL_VERSION {
            outcome matches Ok(capabilities) && raw.payload@ == server_handshake_wire(
                PROTOCOL_VERSION,
                capabilities.bits,
            )
        } else {
            outcome == Err::<Capabilities, ConnectError>(
                ConnectError::UnsupportedVersion(raw.payload@[0]),
            )
        }
    } else {
        outcome matches Err(ConnectError::Unexpected(error)) && is_refused(
            raw,
            SERVER_HANDSHAKE,
            error,
        )
    }
}

/// What the answer to the authentication comes to.
pub open spec fn is_authenticated(raw: RawMessage, outcome: Result<bool, ConnectError>) -> bool {
    if raw.message_type == AUTHENTICATION_ACCEPTED && raw.payload@.len() == 0 {
        outcome == Ok::<bool, ConnectError>(true)
    } else if raw.message_type == ERROR_RESPONSE && raw.payload@ == seq![3u8] {
        outcome == Ok::<bool, ConnectError>(false)
    } else {
        outcome matches Err(ConnectError::Unexpected(error)) && is_refused(
            raw,
            AUTHENTICATION_ACCEPTED,
            error,
        )
    }
}

/// Whether a step ends the attempt with the given result.
pub open spec fn finishes(
    step: ConnectStep,
    result: Result<ConnectOutcome, ConnectError>,
) -> bool {
    step.phase is None && step.action == ConnectAction::Finish(result)
}

/// Whether a step waits in the given phase for the answer to a frame.
pub open spec fn exchanges(
    step: ConnectStep,
    phase: ConnectPhase,
    message_type: u8,
    payload: Seq<u8>,
) -> bool {
    &&& step.phase == Some(phase)
    &&& step.action matches ConnectAction::Exchange(raw)
    &&& raw.message_type == message_type
    &&& raw.payload@ == payload
}

/// Whether a step is the one taken once the local address is known, given
/// whether the host can name a TLS server.
pub open spec fn follows_location(
    config: ConnectionConfig,
    address: IpAddress,
    valid_name: bool,
    step: ConnectStep,
) -> bool {
    if valid_name {
        step == (ConnectStep {
            phase: Some(ConnectPhase::Securing(address)),
            action: ConnectAction::Secure,
        })
    } else {
        finishes(step, Err(ConnectError::InvalidDnsName(config.host)))
    }
}

/// Whether a step is the one taken after the answer to the client's
/// handshake: authenticate if it is settled and the credentials fit.
pub open spec fn follows_handshake(
    config: ConnectionConfig,
    address: IpAddress,
    raw: RawMessage,
    step: ConnectStep,
) -> bool {
    exists|negotiated: Result<Capabilities, ConnectError>| #[trigger]
        is_negotiated(raw, negotiated) && match negotiated {
            Ok(capabilities) => if fits_authentication(config.client_id@, config.client_secret@) {
                exchanges(
                    step,
                    ConnectPhase::Authenticating(capabilities),
                    AUTHENTICATION,
                    authentication_wire(config.client_id@, config.client_secret@, address),
                )
            } else {
                finishes(
                    step,
                    Err(
                        ConnectError::Encode(
                            authentication_fault(config.client_id@, config.client_secret@),
                        ),
                    ),
                )
            },
            Err(error) => finishes(step, Err(error)),
        }
}

/// Whether a step is the one taken after the verdict on the credentials.
pub open spec fn follows_verdict(
    capabilities: Capabilities,
    raw: RawMessage,
    step: ConnectStep,
) -> bool {
    exists|verdict: Result<bool, ConnectError>| #[trigger]
        is_authenticated(raw, verdict) && match verdict {
            Ok(true) => finishes(step, Ok(ConnectOutcome::Connected(capabilities))),
            Ok(false) => finishes(step, Ok(ConnectOutcome::InvalidCredentials)),
            Err(error) => finishes(step, Err(error)),
        }
}

/// Whether a step is the one taken after an event.
pub open spec fn is_next_step(
    config: ConnectionConfig,
    phase: ConnectPhase,
    event: ConnectEvent,
    step: ConnectStep,
) -> bool {
    match event {
        ConnectEvent::TimedOut => finishes(step, Err(ConnectError::Timeout)),
        ConnectEvent::Resolved(found) => if found {
            step == (ConnectStep { phase: Some(ConnectPhase::Dialing), action: ConnectAction::Dial })
        } else {
            finishes(step, Err(ConnectError::Resolve(config.host)))
        },
        ConnectEvent::Dialed => step == (ConnectStep {
            phase: Some(ConnectPhase::Locating),
            action: ConnectAction::Locate,
        }),
        ConnectEvent::Located(address) => follows_location(
            config,
            address,
            valid_server_name(config.host@),
            step,
        ),
        ConnectEvent::Secured => exchanges(
            step,
            ConnectPhase::Negotiating(phase->Securing_0),
            CLIENT_HANDSHAKE,
            seq![PROTOCOL_VERSION, PROTOCOL_VERSION],
        ),
        ConnectEvent::Failed(error) => finishes(step, Err(ConnectError::Io(error))),
        ConnectEvent::Broken(error) => finishes(step, Err(ConnectError::Frame(error))),
        ConnectEvent::Answered(raw) => match phase {
            ConnectPhase::Negotiating(address) => follows_handshake(config, address, raw, step),
            _ => follows_verdict(phase->Authenticating_0, raw, step),
        },
    }
}

/// Starts an attempt.
pub fn start() -> (step: ConnectStep)
    ensures
        step == (ConnectStep {
            phase: Some(ConnectPhase::Resolving),
            action: ConnectAction::Resolve,
        }),
{
    ConnectStep { phase: Some(ConnectPhase::Resolving), action: ConnectAction::Resolve }
}

/// Takes an attempt one step on.
pub fn advance(config: &ConnectionConfig, phase: ConnectPhase, event: ConnectEvent) -> (step:
    ConnectStep)
    requires
        can_happen(phase, event),
    ensures
        is_next_step(*config, phase, event, step),
{
    match event {
        ConnectEvent::TimedOut => finish(Err(ConnectError::Timeout)),
        ConnectEvent::Resolved(found) => {
            if found {
                ConnectStep { phase: Some(ConnectPhase::Dialing), action: ConnectAction::Dial }
            } else {
                finish(Err(ConnectError::Resolve(config.host.clone())))
            }
        },
        ConnectEvent::Dialed => {
            ConnectStep { phase: Some(ConnectPhase::Locating), action: ConnectAction::Locate }
        },
        ConnectEvent::Located(address) => {
            located(config, address, is_server_name(config.host.as_str()))
        },
        ConnectEvent::Secured => match phase {
            ConnectPhase::Securing(address) => ConnectStep {
                phase: Some(ConnectPhase::Negotiating(address)),
                action: ConnectAction::Exchange(
                    encode_client_handshake(PROTOCOL_VERSION, PROTOCOL_VERSION),
                ),
            },
            _ => unreached(),
        },
        ConnectEvent::Failed(error) => finish(Err(ConnectError::Io(error))),
        ConnectEvent::Broken(error) => finish(Err(ConnectError::Frame(error))),
        ConnectEvent::Answered(raw) => match phase {
            ConnectPhase::Negotiating(address) => negotiated(config, address, raw),
            ConnectPhase::Authenticating(capabilities) => judged(capabilities, raw),
            _ => unreached(),
        },
    }
}

/// Ends an attempt.
fn finish(result: Result<ConnectOutcome, ConnectError>) -> (step: ConnectStep)
    ensures
        finishes(step, result),
{
    ConnectStep { phase: None, action: ConnectAction::Finish(result) }
}

/// Takes an attempt on from the local address, given whether the host can
/// name a TLS server.
pub fn located(config: &ConnectionConfig, address: IpAddress, valid_name: bool) -> (step:
    ConnectStep)
    ensures
        follows_location(*config, address, valid_name, step),
{
    if valid_name {
        ConnectStep {
            phase: Some(ConnectPhase::Securing(address)),
            action: ConnectAction::Secure,
        }
    } else {
        finish(Err(ConnectError::InvalidDnsName(config.host.clone())))
    }
}

/// Takes an attempt on from the answer to the client's handshake.
fn negotiated(config: &ConnectionConfig, address: IpAddress, raw: RawMessage) -> (step: ConnectStep)
    ensures
        follows_handshake(*config, address, raw, step),
{
    let outcome = negotiate_version(raw);
    let ghost agreed = outcome;
    assert(is_negotiated(raw, agreed));
    match outcome {
        Ok(capabilities) => match authentication_request(config, &address) {
            Ok(request) => ConnectStep {
                phase: Some(ConnectPhase::Authenticating(capabilities)),
                action: ConnectAction::Exchange(request),
            },
            Err(error) => finish(Err(error)),
        },
        Err(error) => finish(Err(error)),
    }
}

/// Takes an attempt on from the verdict on the credentials.
fn judged(capabilities: Capabilities, raw: RawMessage) -> (step: ConnectStep)
    ensures
        follows_verdict(capabilities, raw, step),
{
    let verdict = authenticate(raw);
    let ghost reached = verdict;
    assert(is_authenticated(raw, reached));
    match verdict {
        Ok(true) => finish(Ok(ConnectOutcome::Connected(capabilities))),
        Ok(false) => finish(Ok(ConnectOutcome::InvalidCredentials)),
        Err(error) => finish(Err(error)),
    }
}

/// Reads the answer to the client's handshake: the server's capabilities, if
/// it settled on the client's version.
pub fn negotiate_version(raw: RawMessage) -> (outcome: Result<Capabilities, ConnectError>)
    ensures
        is_negotiated(raw, outcome),
{
    let decoded = decode_server_handshake(&raw);
    let ghost frame = raw;
    match decode_response(raw, decoded) {
        Ok((accepted_version, bits)) => {
            assert(frame.payload@[0] == accepted_version);
            if accepted_version != PROTOCOL_VERSION {
                return Err(ConnectError::UnsupportedVersion(accepted_version));
            }
            Ok(Capabilities { bits })
        },
        Err(RequestError::Error(ErrorResponse::UnsupportedVersionRange)) => {
            assert(frame.payload@ =~= seq![2u8]);
            Err(ConnectError::UnsupportedVersionRange)
        },
        Err(error) => Err(ConnectError::Unexpected(error)),
    }
}

/// Builds the frame that presents the credentials.
pub fn authentication_request(config: &ConnectionConfig, address: &IpAddress) -> (request: Result<
    RawMessage,
    ConnectError,
>)
    ensures
        request is Ok <==> fits_authentication(config.client_id@, config.client_secret@),
        match request {
            Ok(raw) => raw.message_type == AUTHENTICATION && raw.payload@ == authentication_wire(
                config.client_id@,
                config.client_secret@,
                *address,
            ),
            Err(error) => error == ConnectError::Encode(
                authentication_fault(config.client_id@, config.client_secret@),
            ),
        },
{
    match encode_authentication(
        config.client_id.as_str(),
        config.client_secret.as_str(),
        address,
    ) {
        Ok(raw) => Ok(raw),
        Err(error) => Err(ConnectError::Encode(error)),
    }
}

/// Reads the verdict on the credentials: whether the server accepts them.
pub fn authenticate(raw: RawMessage) -> (outcome: Result<bool, ConnectError>)
    ensures
        is_authenticated(raw, outcome),
{
    let decoded = decode_authentication_accepted(&raw);
    let ghost frame = raw;
    match decode_response(raw, decoded) {
        Ok(()) => Ok(true),
        Err(RequestError::Error(ErrorResponse::InvalidCredentials)) => {
            assert(frame.payload@ =~= seq![3u8]);
            Ok(false)
        },
        Err(error) => Err(ConnectError::Unexpected(error)),
    }
}

/// Turns the result of an attempt into what the connection task goes by.
pub fn attempt_end(result: &Result<ConnectOutcome, ConnectError>) -> (end: ConnectEnd)
    ensures
        end == match *result {
            Ok(ConnectOutcome::Connected(capabilities)) => ConnectEnd::Connected(capabilities),
            Ok(ConnectOutcome::InvalidCredentials) => ConnectEnd::InvalidCredentials,
            Err(_) => ConnectEnd::Failed,
        },
{
    match result {
        Ok(ConnectOutcome::Connected(capabilities)) => ConnectEnd::Connected(*capabilities),
        Ok(ConnectOutcome::InvalidCredentials) => ConnectEnd::InvalidCredentials,
        Err(_) => ConnectEnd::Failed,
    }
}

/// An attempt succeeds only with the server's acceptance of the credentials,
/// and with the capabilities it was waiting with.
pub proof fn law_connected_means_accepted(
    config: ConnectionConfig,
    phase: ConnectPhase,
    event: ConnectEvent,
    step: ConnectStep,
    capabilities: Capabilities,
)
    requires
        can_happen(phase, event),
        is_next_step(config, phase, event, step),
        step.action == ConnectAction::Finish(Ok(ConnectOutcome::Connected(capabilities))),
    ensures
        phase == ConnectPhase::Authenticating(capabilities),
        event matches ConnectEvent::Answered(raw) && raw.message_type == AUTHENTICATION_ACCEPTED
            && raw.payload@.len() == 0,
{
}

/// The credentials are presented only to a server that settled on the
/// client's version, and the capabilities waited with are those it declared.
pub proof fn law_credentials_follow_the_handshake(
    config: ConnectionConfig,
    phase: ConnectPhase,
    event: ConnectEvent,
    step: ConnectStep,
    capabilities: Capabilities,
)
    requires
        can_happen(phase, event),
        is_next_step(config, phase, event, step),
        step.phase == Some(ConnectPhase::Authenticating(capabilities)),
    ensures
        phase is Negotiating,
        event matches ConnectEvent::Answered(raw) && raw.message_type == SERVER_HANDSHAKE
            && raw.payload@ == server_handshake_wire(PROTOCOL_VERSION, capabilities.bits),
{
}

/// Rejected credentials are reported only on the server's word: a failure of
/// the network, of TLS or of the handshake is never taken for one.
pub proof fn law_rejection_is_the_servers(
    config: ConnectionConfig,
    phase: ConnectPhase,
    event: ConnectEvent,
    step: ConnectStep,
)
    requires
        can_happen(phase, event),
        is_next_step(config, phase, event, step),
        step.action == ConnectAction::Finish(Ok(ConnectOutcome::InvalidCredentials)),
    ensures
        phase is Authenticating,
        event matches ConnectEvent::Answered(raw) && raw.message_type == ERROR_RESPONSE
            && raw.payload@ == seq![3u8],
{
}

} // verus!
