//! What holds of connection establishment over any course of events.

use vstd::prelude::*;
use vstd::utf8::encode_utf8;

use crate::client::{ConnectEnd, ConnectionConfig};
use crate::connection::{
    advance, attempt_end, authenticate, authentication_request, can_happen, is_authenticated,
    is_negotiated, located, negotiate_version, start, valid_server_name, ConnectAction,
    ConnectError, ConnectEvent, ConnectOutcome, ConnectPhase, ConnectStep,
};
use crate::protocol::{
    authentication_fault, authentication_wire, decode_fault, error_of_code, le_u64,
    law_server_handshake_is_unique, Capabilities, IpAddress, MessageSetError, RawMessage,
};
use crate::request::RequestError;

verus! {

/// An attempt starts with the lookup of the host.
pub proof fn law_attempt_starts_with_the_lookup(step: ConnectStep)
    requires
        call_ensures(start, (), step),
    ensures
        step.phase == Some(ConnectPhase::Resolving),
        step.action is Resolve,
{
}

/// Every event of an attempt can happen exactly when it is awaited.
pub proof fn law_attempt_awaits_its_events(phase: ConnectPhase, event: ConnectEvent)
    ensures
        event is TimedOut ==> (can_happen(phase, event) <==> phase is Resolving
            || phase is Dialing || phase is Securing),
        event is Resolved ==> (can_happen(phase, event) <==> phase is Resolving),
        event is Dialed ==> (can_happen(phase, event) <==> phase is Dialing),
        event is Located ==> (can_happen(phase, event) <==> phase is Locating),
        event is Secured ==> (can_happen(phase, event) <==> phase is Securing),
        event is Failed ==> (can_happen(phase, event) <==> phase is Dialing || phase is Locating
            || phase is Securing),
        event is Broken || event is Answered ==> (can_happen(phase, event)
            <==> phase is Negotiating || phase is Authenticating),
{
}

/// Whatever an attempt does is what it then waits for, and it waits for
/// nothing exactly once it is over.
pub proof fn law_attempt_awaits_what_it_does(
    config: &ConnectionConfig,
    phase: ConnectPhase,
    event: ConnectEvent,
    step: ConnectStep,
)
    requires
        can_happen(phase, event),
        call_ensures(advance, (config, phase, event), step),
    ensures
        !(step.action is Resolve) && step.phase != Some(ConnectPhase::Resolving),
        step.phase is None <==> step.action is Finish,
        step.phase == Some(ConnectPhase::Dialing) <==> step.action is Dial,
        step.phase == Some(ConnectPhase::Locating) <==> step.action is Locate,
        (step.phase matches Some(next) && next is Securing) <==> step.action is Secure,
        (step.phase matches Some(next) && (next is Negotiating || next is Authenticating))
            <==> step.action is Exchange,
{
}

/// The way up: from the lookup to the TCP connection, to its local address, to
/// the TLS session and to the client's handshake, which offers the one version
/// three and is sent from that local address.
pub proof fn law_attempt_climbs(
    config: &ConnectionConfig,
    phase: ConnectPhase,
    event: ConnectEvent,
    step: ConnectStep,
    address: IpAddress,
)
    requires
        can_happen(phase, event),
        call_ensures(advance, (config, phase, event), step),
    ensures
        step.action is Dial <==> event == ConnectEvent::Resolved(true),
        step.action is Locate <==> event is Dialed,
        step.action is Secure <==> event is Located && valid_server_name(config.host@),
        step.phase == Some(ConnectPhase::Securing(address)) ==> event == ConnectEvent::Located(
            address,
        ),
        step.phase == Some(ConnectPhase::Negotiating(address)) <==> event is Secured && phase
            == ConnectPhase::Securing(address),
        event is Secured ==> (step.action matches ConnectAction::Exchange(raw) && raw.message_type
            == 0x01 && raw.payload@ == seq![3u8, 3]),
{
}

/// Every failure ends the attempt at once, as what it is, whatever was being
/// waited for.
pub proof fn law_attempt_fails_as_it_was_failed(
    config: &ConnectionConfig,
    phase: ConnectPhase,
    event: ConnectEvent,
    step: ConnectStep,
)
    requires
        can_happen(phase, event),
        call_ensures(advance, (config, phase, event), step),
    ensures
        event is TimedOut ==> step.action == ConnectAction::Finish(Err(ConnectError::Timeout)),
        event == ConnectEvent::Resolved(false) ==> step.action == ConnectAction::Finish(
            Err(ConnectError::Resolve(config.host)),
        ),
        event is Located && !valid_server_name(config.host@) ==> step.action
            == ConnectAction::Finish(Err(ConnectError::InvalidDnsName(config.host))),
        event matches ConnectEvent::Failed(error) ==> step.action == ConnectAction::Finish(
            Err(ConnectError::Io(error)),
        ),
        event matches ConnectEvent::Broken(error) ==> step.action == ConnectAction::Finish(
            Err(ConnectError::Frame(error)),
        ),
        step.action is Finish ==> event is TimedOut || event == ConnectEvent::Resolved(false)
            || event is Located || event is Failed || event is Broken || event is Answered,
{
}

/// What an answer is taken for that is neither a well-formed message of the
/// opcode nor an error with a meaning of its own.
pub open spec fn is_unexpected(raw: RawMessage, opcode: u8, error: ConnectError) -> bool {
    error == ConnectError::Unexpected(
        if raw.message_type == 0x00 && raw.payload@.len() == 1 {
            RequestError::Error(error_of_code(raw.payload@[0]))
        } else if raw.message_type == 0x00 || raw.message_type == opcode {
            RequestError::Malformed(
                MessageSetError::Malformed {
                    opcode: raw.message_type,
                    source: decode_fault(raw.message_type, raw.payload@),
                },
            )
        } else {
            RequestError::UnexpectedResponse(raw)
        },
    )
}

/// A server's handshake is read for what it says: its capabilities if it
/// accepted version three, the version it accepted instead, that it does not
/// speak the client's, or that it is none.
pub proof fn law_handshake_is_read(raw: RawMessage, outcome: Result<Capabilities, ConnectError>)
    requires
        call_ensures(negotiate_version, (raw,), outcome),
    ensures
        is_negotiated(raw, outcome),
        outcome is Ok <==> raw.message_type == 0x02 && raw.payload@.len() == 9 && raw.payload@[0]
            == 3,
        outcome matches Ok(capabilities) ==> raw.payload@.skip(1) == le_u64(
            capabilities.bits as nat,
        ),
        raw.message_type == 0x02 && raw.payload@.len() == 9 && raw.payload@[0] != 3 ==> outcome
            == Err::<Capabilities, ConnectError>(ConnectError::UnsupportedVersion(raw.payload@[0])),
        raw.message_type == 0x00 && raw.payload@.len() == 1 && raw.payload@[0] == 2 ==> outcome
            == Err::<Capabilities, ConnectError>(ConnectError::UnsupportedVersionRange),
        !(raw.message_type == 0x02 && raw.payload@.len() == 9) && !(raw.message_type == 0x00
            && raw.payload@.len() == 1 && raw.payload@[0] == 2) ==> (outcome matches Err(error)
            && is_unexpected(raw, 0x02, error)),
{
    if raw.payload@.len() == 1 && raw.payload@[0] == 2 {
        assert(raw.payload@ =~= seq![2u8]);
    }
    if let Ok(capabilities) = outcome {
        assert(raw.payload@.skip(1) =~= le_u64(capabilities.bits as nat));
    }
}

/// A verdict is read for what it says: accepted, rejected, or neither.
pub proof fn law_verdict_is_read(raw: RawMessage, outcome: Result<bool, ConnectError>)
    requires
        call_ensures(authenticate, (raw,), outcome),
    ensures
        is_authenticated(raw, outcome),
        outcome == Ok::<bool, ConnectError>(true) <==> raw.message_type == 0x04
            && raw.payload@.len() == 0,
        outcome == Ok::<bool, ConnectError>(false) <==> raw.message_type == 0x00
            && raw.payload@.len() == 1 && raw.payload@[0] == 3,
        outcome matches Err(error) ==> is_unexpected(raw, 0x04, error),
{
    if raw.payload@.len() == 1 && raw.payload@[0] == 3 {
        assert(raw.payload@ =~= seq![3u8]);
    }
}

/// The credentials are presented as they are: the ID, the secret and the local
/// address, each behind its length or version; they are refused exactly if one
/// of them is longer than its length can say.
pub proof fn law_credentials_are_presented(
    config: &ConnectionConfig,
    address: &IpAddress,
    request: Result<RawMessage, ConnectError>,
)
    requires
        call_ensures(authentication_request, (config, address), request),
    ensures
        ({
            let id = encode_utf8(config.client_id@);
            let secret = encode_utf8(config.client_secret@);
            &&& request is Ok <==> id.len() < 0x100 && secret.len() < 0x100
            &&& (request matches Err(error) ==> error == ConnectError::Encode(
                authentication_fault(config.client_id@, config.client_secret@),
            ))
            &&& (request matches Ok(raw) ==> raw.message_type == 0x03 && raw.payload@
                == authentication_wire(config.client_id@, config.client_secret@, *address)
                && presents(raw.payload@, id, secret, *address))
        }),
{
    if let Ok(raw) = request {
        lemma_presents(config.client_id@, config.client_secret@, *address);
    }
}

/// Whether a payload presents an ID and a secret from an address.
pub open spec fn presents(
    payload: Seq<u8>,
    id: Seq<u8>,
    secret: Seq<u8>,
    address: IpAddress,
) -> bool {
    let middle = 1 + id.len() as int;
    let end = middle + 1 + secret.len() as int;
    &&& payload.len() > end
    &&& payload[0] == id.len()
    &&& payload.subrange(1, middle) == id
    &&& payload[middle] == secret.len()
    &&& payload.subrange(middle + 1, end) == secret
    &&& match address {
        IpAddress::V4(octets) => payload[end] == 4 && payload.skip(end + 1) == octets@,
        IpAddress::V6(octets) => payload[end] == 6 && payload.skip(end + 1) == octets@,
    }
}

/// Where the parts of an authentication lie.
proof fn lemma_presents(client_id: Seq<char>, client_secret: Seq<char>, address: IpAddress)
    requires
        encode_utf8(client_id).len() < 0x100,
        encode_utf8(client_secret).len() < 0x100,
    ensures
        presents(
            authentication_wire(client_id, client_secret, address),
            encode_utf8(client_id),
            encode_utf8(client_secret),
            address,
        ),
{
    let payload = authentication_wire(client_id, client_secret, address);
    let id = encode_utf8(client_id);
    let secret = encode_utf8(client_secret);
    let middle = 1 + id.len() as int;
    let end = middle + 1 + secret.len() as int;
    assert(payload.subrange(1, middle) =~= id);
    assert(payload.subrange(middle + 1, end) =~= secret);
    match address {
        IpAddress::V4(octets) => {
            assert(payload.skip(end + 1) =~= octets@);
        },
        IpAddress::V6(octets) => {
            assert(payload.skip(end + 1) =~= octets@);
        },
    }
}

/// After the server's handshake an attempt presents the credentials from the
/// address it dialed from and keeps the capabilities declared, or ends with
/// the reason the handshake or the credentials give.
pub proof fn law_attempt_follows_the_handshake(
    config: &ConnectionConfig,
    address: IpAddress,
    raw: RawMessage,
    agreed: Result<Capabilities, ConnectError>,
    request: Result<RawMessage, ConnectError>,
    step: ConnectStep,
)
    requires
        call_ensures(negotiate_version, (raw,), agreed),
        call_ensures(authentication_request, (config, &address), request),
        call_ensures(
            advance,
            (config, ConnectPhase::Negotiating(address), ConnectEvent::Answered(raw)),
            step,
        ),
    ensures
        agreed matches Err(error) ==> step.phase is None && step.action == ConnectAction::Finish(
            Err(error),
        ),
        agreed is Ok ==> (request matches Err(error) ==> step.phase is None && step.action
            == ConnectAction::Finish(Err(error))),
        agreed is Ok && request is Ok ==> {
            &&& step.phase == Some(ConnectPhase::Authenticating(agreed->Ok_0))
            &&& step.action matches ConnectAction::Exchange(sent)
            &&& sent.message_type == request->Ok_0.message_type
            &&& sent.payload@ == request->Ok_0.payload@
        },
{
    let other = choose|other: Result<Capabilities, ConnectError>| #[trigger]
        is_negotiated(raw, other) && match other {
            Ok(capabilities) => step.phase is Some ==> step.phase == Some(
                ConnectPhase::Authenticating(capabilities),
            ),
            Err(error) => step.action == ConnectAction::Finish(Err(error)),
        };
    assert(is_negotiated(raw, agreed));
    if agreed is Ok && other is Ok {
        law_server_handshake_is_unique(3, agreed->Ok_0.bits, 3, other->Ok_0.bits);
    }
}

/// After the verdict an attempt is over: connected with the capabilities it
/// waited with, rejected, or failed for the reason the answer gives.
pub proof fn law_attempt_follows_the_verdict(
    config: &ConnectionConfig,
    capabilities: Capabilities,
    raw: RawMessage,
    verdict: Result<bool, ConnectError>,
    step: ConnectStep,
)
    requires
        call_ensures(authenticate, (raw,), verdict),
        call_ensures(
            advance,
            (config, ConnectPhase::Authenticating(capabilities), ConnectEvent::Answered(raw)),
            step,
        ),
    ensures
        step.phase is None,
        verdict == Ok::<bool, ConnectError>(true) ==> step.action == ConnectAction::Finish(
            Ok(ConnectOutcome::Connected(capabilities)),
        ),
        verdict == Ok::<bool, ConnectError>(false) ==> step.action == ConnectAction::Finish(
            Ok(ConnectOutcome::InvalidCredentials),
        ),
        verdict matches Err(error) ==> step.action == ConnectAction::Finish(Err(error)),
{
}

/// With the local address known, an attempt goes on to the TLS session from
/// that address exactly if the host can name a server.
pub proof fn law_location_needs_a_name(
    config: &ConnectionConfig,
    address: IpAddress,
    valid_name: bool,
    step: ConnectStep,
)
    requires
        call_ensures(located, (config, address, valid_name), step),
    ensures
        valid_name ==> step.phase == Some(ConnectPhase::Securing(address)) && step.action is Secure,
        !valid_name ==> step.phase is None && step.action == ConnectAction::Finish(
            Err(ConnectError::InvalidDnsName(config.host)),
        ),
{
}

/// The connection task learns how an attempt ended, and of every failure just
/// that it failed.
pub proof fn law_task_learns_the_end(
    result: &Result<ConnectOutcome, ConnectError>,
    end: ConnectEnd,
    capabilities: Capabilities,
)
    requires
        call_ensures(attempt_end, (result,), end),
    ensures
        end == ConnectEnd::Connected(capabilities) <==> *result == Ok::<
            ConnectOutcome,
            ConnectError,
        >(ConnectOutcome::Connected(capabilities)),
        end is InvalidCredentials <==> *result == Ok::<ConnectOutcome, ConnectError>(
            ConnectOutcome::InvalidCredentials,
        ),
        end is Failed <==> *result is Err,
{
}

} // verus!
