//! What a response means: a payload, or an error of the API.
//!
//! The transport hands over the status code of a response and its body. The
//! status decides what the body is read as; the functions here turn what the
//! decoder made of the body into the result of the call.

use crate::error::{
    result_view, Error, ErrorResponse, ErrorType, ErrorView, RequestError, RequestErrorView,
};
use vstd::prelude::*;
use vstd::string::*;

verus! {

/// What the transport made of a request.
#[derive(Debug, PartialEq, Eq)]
pub enum Reply {
    /// The request could not be sent, or the response could not be read;
    /// holds the transport's description.
    Failed(String),
    /// A response came back: its status code and its whole body.
    Received { status: u16, body: String },
}

/// What the body of a response is read as.
#[derive(Clone, Copy, Debug, PartialEq, Eq)]
pub enum BodyKind {
    /// The value that the caller asked for.
    Payload,
    /// An error inside its envelope.
    ErrorEnvelope,
}

/// Whether a status code lies in the success class, 200 to 299.
pub open spec fn is_success(status: u16) -> bool {
    200 <= status < 300
}

/// The text that a stand-in error's message begins with.
pub open spec fn undecodable_prefix() -> Seq<char> {
    "failed to deserialize error: "@
}

/// The error that stands in for a body that could not be decoded: class
/// unknown, no code, and a message that ends in the decoder's description.
pub open spec fn stand_in(detail: Seq<char>) -> RequestErrorView {
    RequestErrorView {
        http_status: 0,
        error_type: ErrorType::Unknown,
        message: Some(undecodable_prefix() + detail),
        code: None,
    }
}

/// The error that a response outside the success class ends in: what the
/// body held, or the stand-in, under the status of the response.
pub open spec fn reported(
    status: u16,
    parsed: Result<RequestErrorView, Seq<char>>,
) -> RequestErrorView {
    let held = match parsed {
        Ok(error) => error,
        Err(detail) => stand_in(detail),
    };
    RequestErrorView {
        http_status: status,
        error_type: held.error_type,
        message: held.message,
        code: held.code,
    }
}

/// Whether `outcome` is what a successful response ends in when the decoder
/// made `parsed` of its body: the decoded value itself, or a `Deserialize`
/// error with the decoder's description.
pub open spec fn is_payload_outcome<T>(
    parsed: Result<T, String>,
    outcome: Result<T, Error>,
) -> bool {
    match parsed {
        Ok(value) => outcome == Ok::<T, Error>(value),
        Err(detail) => outcome matches Err(e) && e@ == ErrorView::Deserialize(detail@),
    }
}

/// Whether `outcome` is what a response outside the success class ends in
/// when the decoder made `parsed` of its body: the reported error.
pub open spec fn is_error_outcome<T>(
    status: u16,
    parsed: Result<ErrorResponse, String>,
    outcome: Result<T, Error>,
) -> bool {
    outcome matches Err(e) && e@ == ErrorView::Api(reported(status, result_view(parsed)))
}

/// Says what the body of a response with this status is to be read as.
pub fn body_kind(status: u16) -> (kind: BodyKind)
    ensures
        kind == (if is_success(status) {
            BodyKind::Payload
        } else {
            BodyKind::ErrorEnvelope
        }),
{
    if 200 <= status && status < 300 {
        BodyKind::Payload
    } else {
        BodyKind::ErrorEnvelope
    }
}

/// The result of a call whose response was a success, from what the decoder
/// made of the body.
pub fn payload_outcome<T>(parsed: Result<T, String>) -> (outcome: Result<T, Error>)
    ensures
        is_payload_outcome(parsed, outcome),
{
    match parsed {
        Ok(value) => Ok(value),
        Err(detail) => Err(Error::Deserialize(detail)),
    }
}

/// The stand-in for an error body that could not be decoded.
pub fn undecodable(detail: &str) -> (error: RequestError)
    ensures
        error@ == stand_in(detail@),
{
    let mut message = String::from_str("failed to deserialize error: ");
    message.append(detail);
    let mut error = RequestError::default();
    error.message = Some(message);
    error
}

/// The error of a call whose response was no success, from what the decoder
/// made of the body. The status of the response replaces whatever status
/// the decoded error came with.
pub fn error_outcome(status: u16, parsed: Result<ErrorResponse, String>) -> (error: Error)
    ensures
        error@ == ErrorView::Api(reported(status, result_view(parsed))),
        error matches Error::Api(e) && e.http_status == status,
        parsed matches Err(detail) ==> error@ == ErrorView::Api(
            RequestErrorView {
                http_status: status,
                error_type: ErrorType::Unknown,
                message: Some("failed to deserialize error: "@ + detail@),
                code: None,
            },
        ),
{
    let mut held = match parsed {
        Ok(envelope) => envelope.error,
        Err(detail) => undecodable(detail.as_str()),
    };
    held.http_status = status;
    Error::Api(held)
}

/// The result of a call, from the status and the body of its response.
///
/// The body is handed to exactly one of the two decoders: to `payload` if
/// the status is a success, to `envelope` if it is not. What that decoder
/// returns decides the result as `payload_outcome` and `error_outcome` say.
pub fn decode<T, P, E>(status: u16, body: &str, payload: P, envelope: E) -> (outcome: Result<
    T,
    Error,
>) where P: FnOnce(&str) -> Result<T, String>, E: FnOnce(&str) -> Result<ErrorResponse, String>
    requires
        call_requires(payload, (body,)),
        call_requires(envelope, (body,)),
    ensures
        is_success(status) ==> exists|parsed: Result<T, String>|
            call_ensures(payload, (body,), parsed) && is_payload_outcome(parsed, outcome),
        !is_success(status) ==> exists|parsed: Result<ErrorResponse, String>|
            call_ensures(envelope, (body,), parsed) && is_error_outcome(status, parsed, outcome),
{
    match body_kind(status) {
        BodyKind::Payload => {
            let parsed = payload(body);
            let outcome = payload_outcome(parsed);
            assert(call_ensures(payload, (body,), parsed) && is_payload_outcome(parsed, outcome));
            outcome
        },
        BodyKind::ErrorEnvelope => {
            let parsed = envelope(body);
            let outcome = Err(error_outcome(status, parsed));
            assert(call_ensures(envelope, (body,), parsed) && is_error_outcome(
                status,
                parsed,
                outcome,
            ));
            outcome
        },
    }
}

/// The result of a call, from what the transport made of its request.
///
/// A failure of the transport is a `Transport` error with the transport's
/// description, and no decoder sees anything. A response is decoded as
/// `decode` says.
pub fn conclude<T, P, E>(reply: Reply, payload: P, envelope: E) -> (outcome: Result<
    T,
    Error,
>) where P: FnOnce(&str) -> Result<T, String>, E: FnOnce(&str) -> Result<ErrorResponse, String>
    requires
        forall|text: &str| call_requires(payload, (text,)),
        forall|text: &str| call_requires(envelope, (text,)),
    ensures
        match reply {
            Reply::Failed(detail) => outcome matches Err(e) && e@ == ErrorView::Transport(detail@),
            Reply::Received { status, body } => if is_success(status) {
                exists|text: &str, parsed: Result<T, String>|
                    text@ == body@ && call_ensures(payload, (text,), parsed) && is_payload_outcome(
                        parsed,
                        outcome,
                    )
            } else {
                exists|text: &str, parsed: Result<ErrorResponse, String>|
                    text@ == body@ && call_ensures(envelope, (text,), parsed) && is_error_outcome(
                        status,
                        parsed,
                        outcome,
                    )
            },
        },
{
    match reply {
        Reply::Failed(detail) => Err(Error::Transport(detail)),
        Reply::Received { status, body } => {
            let text = body.as_str();
            let outcome = decode(status, text, payload, envelope);
            proof {
                if is_success(status) {
                    let parsed = choose|parsed: Result<T, String>|
                        call_ensures(payload, (text,), parsed) && is_payload_outcome(
                            parsed,
                            outcome,
                        );
                    assert(text@ == body@ && call_ensures(payload, (text,), parsed)
                        && is_payload_outcome(parsed, outcome));
                } else {
                    let parsed = choose|parsed: Result<ErrorResponse, String>|
                        call_ensures(envelope, (text,), parsed) && is_error_outcome(
                            status,
                            parsed,
                            outcome,
                        );
                    assert(text@ == body@ && call_ensures(envelope, (text,), parsed)
                        && is_error_outcome(status, parsed, outcome));
                }
            }
            outcome
        },
    }
}

} // verus!
