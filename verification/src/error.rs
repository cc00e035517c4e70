//! The errors a call to the API can end in.

use crate::params::clone_text;
use vstd::prelude::*;

verus! {

/// The class of an error that the API reports.
#[derive(Clone, Copy, Debug, PartialEq, Eq)]
pub enum ErrorType {
    /// The body did not say, or could not be decoded.
    Unknown,
    /// Something went wrong on the side of the API.
    Api,
    /// The API could not be reached.
    Connection,
    /// The credential was not accepted.
    Authentication,
    /// A card could not be charged.
    Card,
    /// The request had parameters that are not valid.
    InvalidRequest,
    /// Too many requests came in too short a time.
    RateLimit,
    /// A field of the request did not pass validation.
    Validation,
}

/// An error that the API reported in the body of a response.
#[derive(Debug, PartialEq, Eq)]
pub struct RequestError {
    /// The status code of the response that carried the error.
    pub http_status: u16,
    /// The class of the error.
    pub error_type: ErrorType,
    /// A description for a human reader.
    pub message: Option<String>,
    /// A short code that says what went wrong.
    pub code: Option<String>,
}

/// The body of a response that is no success: the error inside its envelope.
#[derive(Debug, PartialEq, Eq)]
pub struct ErrorResponse {
    /// The error that the envelope holds.
    pub error: RequestError,
}

/// How a call can fail.
#[derive(Debug, PartialEq, Eq)]
pub enum Error {
    /// The API answered with a status outside the success class.
    Api(RequestError),
    /// The request could not be sent or the response could not be read;
    /// holds the transport's description.
    Transport(String),
    /// The parameters could not be encoded; holds the encoder's description.
    /// No request was built.
    Serialize(String),
    /// The body of a successful response could not be decoded; holds the
    /// decoder's description.
    Deserialize(String),
    /// A configured text cannot be sent as a header value; holds the name of
    /// the header.
    Configuration(String),
}

/// A reported error as plain values.
pub struct RequestErrorView {
    pub http_status: u16,
    pub error_type: ErrorType,
    pub message: Option<Seq<char>>,
    pub code: Option<Seq<char>>,
}

/// An error as plain values.
pub enum ErrorView {
    Api(RequestErrorView),
    Transport(Seq<char>),
    Serialize(Seq<char>),
    Deserialize(Seq<char>),
    Configuration(Seq<char>),
}

/// A result as plain values: what it holds, seen through its view.
pub open spec fn result_view<T: View, E: View>(result: Result<T, E>) -> Result<T::V, E::V> {
    match result {
        Ok(value) => Ok(value@),
        Err(error) => Err(error@),
    }
}

impl RequestErrorView {
    /// The error that says nothing: status 0, class unknown, no texts.
    pub open spec fn blank() -> RequestErrorView {
        RequestErrorView { http_status: 0, error_type: ErrorType::Unknown, message: None, code: None }
    }
}

impl View for RequestError {
    type V = RequestErrorView;

    open spec fn view(&self) -> RequestErrorView {
        RequestErrorView {
            http_status: self.http_status,
            error_type: self.error_type,
            message: self.message.deep_view(),
            code: self.code.deep_view(),
        }
    }
}

impl View for ErrorResponse {
    type V = RequestErrorView;

    open spec fn view(&self) -> RequestErrorView {
        self.error@
    }
}

impl View for Error {
    type V = ErrorView;

    open spec fn view(&self) -> ErrorView {
        match self {
            Error::Api(e) => ErrorView::Api(e@),
            Error::Transport(s) => ErrorView::Transport(s@),
            Error::Serialize(s) => ErrorView::Serialize(s@),
            Error::Deserialize(s) => ErrorView::Deserialize(s@),
            Error::Configuration(s) => ErrorView::Configuration(s@),
        }
    }
}

impl Default for RequestError {
    /// The error that says nothing.
    fn default() -> (error: RequestError)
        ensures
            error@ == RequestErrorView::blank(),
    {
        RequestError { http_status: 0, error_type: ErrorType::Unknown, message: None, code: None }
    }
}

impl Clone for RequestError {
    fn clone(&self) -> (copy: RequestError)
        ensures
            copy@ == self@,
    {
        RequestError {
            http_status: self.http_status,
            error_type: self.error_type,
            message: clone_text(&self.message),
            code: clone_text(&self.code),
        }
    }
}

} // verus!
