//! Request construction and response decoding for a payments REST API.
//!
//! The library builds the requests of a client and says what a response
//! means. It sends nothing itself: a transport takes a [`Request`], and hands
//! back the status and the body of the response.

pub mod client;
pub mod error;
pub mod header;
pub mod params;
pub mod request;
pub mod response;
pub mod sendable;

pub use crate::client::Client;
pub use crate::error::{Error, ErrorResponse, ErrorType, RequestError};
pub use crate::params::Headers;
pub use crate::request::{with_form_urlencoded, Method, Request};
pub use crate::response::{
    body_kind, conclude, decode, error_outcome, payload_outcome, BodyKind, Reply,
};
