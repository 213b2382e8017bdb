//! Errors of requests and the routing of their responses.

use vstd::prelude::*;

use crate::client::ConnectionStatus;
use crate::protocol::{
    decode_error, decode_failure, decode_fault, error_of_code, ErrorResponse, MessageSetError, RawMessage, ERROR_RESPONSE,
};

verus! {

/// Errors that can occur while performing a request.
#[derive(Debug)]
#[non_exhaustive]
pub enum RequestError {
    /// The client is not connected, or the connection was lost while the
    /// request was in flight.
    Disconnected,
    /// The client has been shut down.
    Shutdown,
    /// The server answered with a protocol error.
    ///
    /// This covers both standard error codes such as
    /// [`ErrorResponse::UnknownNfcUid`] and extension-defined codes via
    /// [`ErrorResponse::Custom`].
    Error(ErrorResponse),
    /// The server answered with a message of an unexpected type.
    UnexpectedResponse(RawMessage),
    /// The server's response failed to decode.
    Malformed(MessageSetError),
    /// The request could not be encoded.
    Encode(bloop_protocol::codec::EncodeError),
}

/// Whether a frame of the error opcode is reported as the given error: as the
/// server's error if the payload is one code byte, else as malformed.
pub open spec fn is_server_error(raw: RawMessage, error: RequestError) -> bool {
    if raw.payload@.len() == 1 {
        error == RequestError::Error(error_of_code(raw.payload@[0]))
    } else {
        error == RequestError::Malformed(
            decode_failure(raw, ERROR_RESPONSE, decode_fault(ERROR_RESPONSE, raw.payload@)),
        )
    }
}

/// What a response comes to, given what decoding it as the expected message
/// gave: server errors first, then the message, then the reason it is none.
pub open spec fn is_routed<M>(
    raw: RawMessage,
    decoded: Result<M, MessageSetError>,
    outcome: Result<M, RequestError>,
) -> bool {
    if raw.message_type == ERROR_RESPONSE {
        outcome matches Err(error) && is_server_error(raw, error)
    } else {
        match decoded {
            Ok(message) => outcome == Ok::<M, RequestError>(message),
            Err(MessageSetError::UnknownOpcode(_)) => outcome == Err::<M, RequestError>(
                RequestError::UnexpectedResponse(raw),
            ),
            Err(error) => outcome == Err::<M, RequestError>(RequestError::Malformed(error)),
        }
    }
}

/// Whether a response that is not a well-formed message of the given opcode
/// is refused with the given error.
pub open spec fn is_refused(raw: RawMessage, opcode: u8, error: RequestError) -> bool {
    if raw.message_type == ERROR_RESPONSE {
        is_server_error(raw, error)
    } else if raw.message_type != opcode {
        error == RequestError::UnexpectedResponse(raw)
    } else {
        error == RequestError::Malformed(
            decode_failure(raw, opcode, decode_fault(opcode, raw.payload@)),
        )
    }
}

/// Routes a response, telling protocol errors and foreign opcodes from the
/// expected message.
///
/// `decoded` is what decoding the frame as that message gave; a frame of the
/// error opcode is routed without regard to it.
pub fn decode_response<M>(raw: RawMessage, decoded: Result<M, MessageSetError>) -> (outcome: Result<
    M,
    RequestError,
>)
    ensures
        is_routed(raw, decoded, outcome),
{
    if raw.message_type == ERROR_RESPONSE {
        return match decode_error(&raw) {
            Ok(code) => Err(RequestError::Error(ErrorResponse::from_code(code))),
            Err(error) => Err(RequestError::Malformed(error)),
        };
    }
    match decoded {
        Ok(message) => Ok(message),
        Err(MessageSetError::UnknownOpcode(_)) => Err(RequestError::UnexpectedResponse(raw)),
        Err(error) => Err(RequestError::Malformed(error)),
    }
}

/// What became of a request handed to the connection task.
#[derive(Debug)]
pub enum Delivery {
    /// The task is gone.
    Closed,
    /// The task was too busy to take the request in time.
    TimedOut,
    /// The task took the request and ended without answering it.
    Unanswered,
    /// The task answered.
    Answered(Result<RawMessage, RequestError>),
}

/// What the caller gets, by what became of the request: a busy task means a
/// disconnect, unless the client is shut down.
pub open spec fn request_outcome(delivery: Delivery, status: ConnectionStatus) -> Result<
    RawMessage,
    RequestError,
> {
    match delivery {
        Delivery::Closed | Delivery::Unanswered => Err(RequestError::Shutdown),
        Delivery::TimedOut => if status is Shutdown {
            Err(RequestError::Shutdown)
        } else {
            Err(RequestError::Disconnected)
        },
        Delivery::Answered(response) => response,
    }
}

/// Turns what became of a request, and the client's status, into the response
/// the caller gets.
pub fn send_request(delivery: Delivery, status: ConnectionStatus) -> (response: Result<
    RawMessage,
    RequestError,
>)
    ensures
        response == request_outcome(delivery, status),
{
    match delivery {
        Delivery::Closed | Delivery::Unanswered => Err(RequestError::Shutdown),
        Delivery::TimedOut => {
            if status == ConnectionStatus::Shutdown {
                Err(RequestError::Shutdown)
            } else {
                Err(RequestError::Disconnected)
            }
        },
        Delivery::Answered(response) => response,
    }
}

/// What the caller gets who asks for a new configuration: an error if the
/// connection task is gone or the client is shut down.
pub open spec fn configure_outcome(taken: bool, status: ConnectionStatus) -> Result<
    (),
    RequestError,
> {
    if taken && !(status is Shutdown) {
        Ok(())
    } else {
        Err(RequestError::Shutdown)
    }
}

/// Turns whether the connection task took a new configuration, and the
/// client's status, into what the caller gets.
pub fn configured(taken: bool, status: ConnectionStatus) -> (outcome: Result<(), RequestError>)
    ensures
        outcome == configure_outcome(taken, status),
{
    if taken && status != ConnectionStatus::Shutdown {
        Ok(())
    } else {
        Err(RequestError::Shutdown)
    }
}

/// Turns an exchange on the connection itself into the response the caller
/// gets; `None` stands for a failed transport.
pub fn exchanged(reply: Option<RawMessage>) -> (response: Result<RawMessage, RequestError>)
    ensures
        response == match reply {
            Some(raw) => Ok(raw),
            None => Err(RequestError::Disconnected),
        },
{
    match reply {
        Some(raw) => Ok(raw),
        None => Err(RequestError::Disconnected),
    }
}

/// A response comes to the expected message, the server's error, or the
/// reason it is neither; only a missing response is a disconnect or a
/// shutdown.
pub proof fn law_every_response_is_routed<M>(
    raw: RawMessage,
    decoded: Result<M, MessageSetError>,
    outcome: Result<M, RequestError>,
)
    requires
        is_routed(raw, decoded, outcome),
    ensures
        outcome is Ok ==> decoded is Ok && raw.message_type != ERROR_RESPONSE,
        raw.message_type == ERROR_RESPONSE && raw.payload@.len() == 1 ==> (outcome matches Err(
            RequestError::Error(error),
        ) && error == error_of_code(raw.payload@[0])),
        outcome matches Err(error) ==> error !is Disconnected && error !is Shutdown
            && error !is Encode,
{
}

/// What the connection task answers is what the caller gets, whatever the
/// status; only a request that was not answered fails on its own, with
/// `Disconnected` if the task was merely too busy, else with `Shutdown`.
pub proof fn law_answers_reach_the_caller(
    delivery: Delivery,
    status: ConnectionStatus,
    outcome: Result<RawMessage, RequestError>,
)
    requires
        call_ensures(send_request, (delivery, status), outcome),
    ensures
        outcome == request_outcome(delivery, status),
        delivery matches Delivery::Answered(response) ==> outcome == response,
        !(delivery is Answered) ==> outcome == Err::<RawMessage, RequestError>(
            RequestError::Disconnected,
        ) || outcome == Err::<RawMessage, RequestError>(RequestError::Shutdown),
        !(delivery is Answered) ==> (outcome == Err::<RawMessage, RequestError>(
            RequestError::Disconnected,
        ) <==> delivery is TimedOut && !(status is Shutdown)),
{
}

/// A new configuration is accepted exactly by a client that takes it and is
/// not shut down; the only refusal is `Shutdown`.
pub proof fn law_configuring_needs_a_client(
    taken: bool,
    status: ConnectionStatus,
    outcome: Result<(), RequestError>,
)
    requires
        call_ensures(configured, (taken, status), outcome),
    ensures
        outcome == configure_outcome(taken, status),
        outcome is Ok <==> taken && !(status is Shutdown),
        outcome matches Err(error) ==> error is Shutdown,
{
}

/// A reply on the connection reaches the caller as it came; without one the
/// caller is disconnected.
pub proof fn law_replies_reach_the_caller(
    reply: Option<RawMessage>,
    outcome: Result<RawMessage, RequestError>,
)
    requires
        call_ensures(exchanged, (reply,), outcome),
    ensures
        reply matches Some(raw) ==> outcome == Ok::<RawMessage, RequestError>(raw),
        reply is None ==> outcome == Err::<RawMessage, RequestError>(RequestError::Disconnected),
{
}

/// A response says what the server sent: an error frame is the server's error
/// by its code, or malformed; else the message as decoded; else the frame
/// itself if it is no such message, or the reason it does not decode.
pub proof fn law_responses_are_told_apart<M>(
    raw: RawMessage,
    decoded: Result<M, MessageSetError>,
    outcome: Result<M, RequestError>,
)
    requires
        call_ensures(decode_response::<M>, (raw, decoded), outcome),
    ensures
        is_routed(raw, decoded, outcome),
        raw.message_type == 0x00 && raw.payload@.len() == 1 ==> outcome == Err::<M, RequestError>(
            RequestError::Error(error_of_code(raw.payload@[0])),
        ),
        raw.message_type == 0x00 && raw.payload@.len() != 1 ==> outcome == Err::<M, RequestError>(
            RequestError::Malformed(
                MessageSetError::Malformed { opcode: 0x00, source: decode_fault(0x00, raw.payload@) },
            ),
        ),
        raw.message_type != 0x00 ==> {
            &&& decoded matches Ok(message) ==> outcome == Ok::<M, RequestError>(message)
            &&& decoded matches Err(MessageSetError::UnknownOpcode(_)) ==> outcome == Err::<
                M,
                RequestError,
            >(RequestError::UnexpectedResponse(raw))
            &&& decoded matches Err(MessageSetError::Malformed { opcode, source }) ==> outcome
                == Err::<M, RequestError>(
                RequestError::Malformed(MessageSetError::Malformed { opcode, source }),
            )
        },
{
}

} // verus!
