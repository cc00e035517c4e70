//! A request, ready to be handed to the transport.

use crate::error::{Error, ErrorView};
use crate::header::{
    append_header, has_room, header_entries, header_value, header_value_bytes, is_header_value,
    is_static_header_name, static_header_name, values_under,
};
use reqwest::header::{HeaderMap, HeaderValue};
use vstd::pervasive::unreached;
use vstd::prelude::*;
use vstd::set_lib::*;
use vstd::utf8::*;

verus! {

/// The name of the header that carries the credential.
pub const AUTHORIZATION: &'static str = "authorization";

/// The name of the header that names the account to act for.
pub const STRIPE_ACCOUNT: &'static str = "stripe-account";

/// The name of the header that identifies the calling application.
pub const CLIENT_ID: &'static str = "client-id";

/// The name of the header that asks for a version of the API.
pub const STRIPE_VERSION: &'static str = "stripe-version";

/// The name of the header that says how the body is encoded.
pub const CONTENT_TYPE: &'static str = "content-type";

/// The content type of a form body.
pub const FORM_URLENCODED: &'static str = "application/x-www-form-urlencoded";

/// The verb of a request.
#[derive(Clone, Copy, Debug, PartialEq, Eq)]
pub enum Method {
    Get,
    Post,
    Delete,
}

/// A request as the transport is to send it.
#[derive(Debug)]
pub struct Request {
    method: Method,
    url: String,
    headers: HeaderMap,
    body: Option<String>,
}

/// A request as plain values.
pub struct RequestView {
    pub method: Method,
    pub url: Seq<char>,
    /// Each header name that is sent, with the values sent under it.
    pub headers: Map<Seq<char>, Seq<Seq<u8>>>,
    pub body: Option<Seq<char>>,
}

/// The header names that a request of this library can carry.
pub open spec fn known_names() -> Set<Seq<char>> {
    set![AUTHORIZATION@, STRIPE_ACCOUNT@, CLIENT_ID@, STRIPE_VERSION@, CONTENT_TYPE@]
}

impl RequestView {
    /// This request with a form for its body: the body is the encoded form,
    /// and one more content type is sent, that of a form.
    pub open spec fn with_form(self, form: Seq<char>) -> RequestView {
        RequestView {
            method: self.method,
            url: self.url,
            headers: self.headers.insert(
                CONTENT_TYPE@,
                values_under(self.headers, CONTENT_TYPE@).push(encode_utf8(FORM_URLENCODED@)),
            ),
            body: Some(form),
        }
    }
}

impl View for Request {
    type V = RequestView;

    closed spec fn view(&self) -> RequestView {
        RequestView {
            method: self.method,
            url: self.url@,
            headers: header_entries(self.headers),
            body: self.body.deep_view(),
        }
    }
}

/// The five header names are names that the header map takes, and no two of
/// them are the same.
pub proof fn lemma_known_names()
    ensures
        is_static_header_name(AUTHORIZATION@),
        is_static_header_name(STRIPE_ACCOUNT@),
        is_static_header_name(CLIENT_ID@),
        is_static_header_name(STRIPE_VERSION@),
        is_static_header_name(CONTENT_TYPE@),
        AUTHORIZATION@ != STRIPE_ACCOUNT@,
        AUTHORIZATION@ != CLIENT_ID@,
        AUTHORIZATION@ != STRIPE_VERSION@,
        AUTHORIZATION@ != CONTENT_TYPE@,
        STRIPE_ACCOUNT@ != CLIENT_ID@,
        STRIPE_ACCOUNT@ != STRIPE_VERSION@,
        STRIPE_ACCOUNT@ != CONTENT_TYPE@,
        CLIENT_ID@ != STRIPE_VERSION@,
        CLIENT_ID@ != CONTENT_TYPE@,
        STRIPE_VERSION@ != CONTENT_TYPE@,
{
    reveal_strlit("authorization");
    reveal_strlit("stripe-account");
    reveal_strlit("client-id");
    reveal_strlit("stripe-version");
    reveal_strlit("content-type");
    // The two names of one length differ at their eighth character.
    assert(STRIPE_ACCOUNT@[7] != STRIPE_VERSION@[7]);
}

/// The content type of a form can be sent as a header value.
proof fn lemma_form_type_is_value()
    ensures
        is_header_value(FORM_URLENCODED@),
{
    reveal_strlit("application/x-www-form-urlencoded");
    is_ascii_chars_encode_utf8(FORM_URLENCODED@);
}

/// A map whose names are all known has room for another name.
pub(crate) proof fn lemma_known_names_leave_room(headers: HeaderMap)
    requires
        header_entries(headers).dom().subset_of(known_names()),
    ensures
        has_room(headers),
{
    lemma_len_subset(header_entries(headers).dom(), known_names());
}

impl Request {
    #[verifier::type_invariant]
    spec fn names_are_known(self) -> bool {
        header_entries(self.headers).dom().subset_of(known_names())
    }

    /// Puts a request together.
    pub(crate) fn new(
        method: Method,
        url: String,
        headers: HeaderMap,
        body: Option<String>,
    ) -> (request: Request)
        requires
            header_entries(headers).dom().subset_of(known_names()),
        ensures
            request@ == (RequestView {
                method,
                url: url@,
                headers: header_entries(headers),
                body: body.deep_view(),
            }),
    {
        Request { method, url, headers, body }
    }

    /// The verb.
    pub fn method(&self) -> (method: Method)
        ensures
            method == self@.method,
    {
        self.method
    }

    /// The address that the request goes to.
    pub fn url(&self) -> (url: &str)
        ensures
            url@ == self@.url,
    {
        self.url.as_str()
    }

    /// The headers that are sent. Their names are known names.
    pub fn headers(&self) -> (headers: &HeaderMap)
        ensures
            header_entries(*headers) == self@.headers,
            self@.headers.dom().subset_of(known_names()),
    {
        proof {
            use_type_invariant(self);
        }
        &self.headers
    }

    /// The body, if there is one.
    pub fn body(&self) -> (body: Option<&str>)
        ensures
            match body {
                Some(text) => self@.body == Some(text@),
                None => self@.body is None,
            },
    {
        match &self.body {
            Some(text) => Some(text.as_str()),
            None => None,
        }
    }

    /// Takes the request apart: verb, address, headers and body.
    pub fn into_parts(self) -> (parts: (Method, String, HeaderMap, Option<String>))
        ensures
            parts.0 == self@.method,
            parts.1@ == self@.url,
            header_entries(parts.2) == self@.headers,
            parts.3.deep_view() == self@.body,
    {
        (self.method, self.url, self.headers, self.body)
    }
}

/// The header value made from a text that is known to be one.
fn value_of(text: &str) -> (value: HeaderValue)
    requires
        is_header_value(text@),
    ensures
        header_value_bytes(value) == encode_utf8(text@),
{
    match header_value(text) {
        Some(value) => value,
        None => unreached(),
    }
}

/// Gives a request a form for its body.
///
/// `form` is what the encoder made of the form: the encoded text, or its
/// description of why the form could not be encoded. In the first case the
/// text becomes the body and the content type of a form is added to the
/// headers. In the second the outcome is a `Serialize` error.
pub fn with_form_urlencoded(request: Request, form: Result<String, String>) -> (outcome: Result<
    Request,
    Error,
>)
    ensures
        match form {
            Ok(body) => outcome matches Ok(r) && r@ == request@.with_form(body@),
            Err(detail) => outcome matches Err(e) && e@ == ErrorView::Serialize(detail@),
        },
{
    match form {
        Err(detail) => Err(Error::Serialize(detail)),
        Ok(body) => {
            proof {
                use_type_invariant(&request);
                lemma_known_names();
                lemma_form_type_is_value();
                lemma_known_names_leave_room(request.headers);
            }
            let Request { method, url, headers, body: _ } = request;
            let mut headers = headers;
            let name = static_header_name(CONTENT_TYPE);
            let value = value_of(FORM_URLENCODED);
            append_header(&mut headers, name, value);
            Ok(Request::new(method, url, headers, Some(body)))
        },
    }
}

} // verus!
