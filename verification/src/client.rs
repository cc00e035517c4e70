//! The client: a credential, a host and a header configuration, and the
//! requests that are built from them.

use crate::error::{result_view, Error, ErrorView};
use crate::header::{
    header_entries, header_value, insert_header, is_header_value, is_static_header_name,
    new_header_map, static_header_name,
};
use crate::params::{Headers, HeadersView};
use crate::sendable::{is_value_char, is_value_text, lemma_header_value_by_chars};
use crate::request::{
    known_names, lemma_known_names, lemma_known_names_leave_room, with_form_urlencoded, Method,
    Request, RequestView, AUTHORIZATION, CLIENT_ID, CONTENT_TYPE, STRIPE_ACCOUNT, STRIPE_VERSION,
};
use reqwest::header::HeaderMap;
use vstd::prelude::*;
use vstd::string::*;
use vstd::utf8::*;

verus! {

/// The host that `Client::new` binds to.
pub const DEFAULT_HOST: &'static str = "https://api.stripe.com/";

/// A client of the API.
///
/// The host it holds always ends in the version segment of the API.
pub struct Client {
    secret_key: String,
    headers: Headers,
    host: String,
}

/// A client as plain values.
pub struct ClientView {
    pub secret_key: Seq<char>,
    pub headers: HeadersView,
    pub host: Seq<char>,
}

/// The host of a client bound to `base`: the base with the version segment
/// behind it, and a separator between the two unless the base ends in one.
pub open spec fn resolved_host(base: Seq<char>) -> Seq<char> {
    if base.len() > 0 && base.last() == '/' {
        base + "v1"@
    } else {
        base + "/v1"@
    }
}

/// Whether a host ends in the version segment.
pub open spec fn ends_in_version(host: Seq<char>) -> bool {
    host.len() >= 3 && host.subrange(host.len() - 3, host.len() as int) == "/v1"@
}

/// Whether a path is one that requests can be made to: it begins with the
/// separator.
pub open spec fn is_path(path: Seq<char>) -> bool {
    path.len() > 0 && path[0] == '/'
}

/// The address of a path below a host. The path brings the separator.
pub open spec fn address(host: Seq<char>, path: Seq<char>) -> Seq<char> {
    host + path
}

/// The address of a path below a host, with a query string.
pub open spec fn address_with_query(host: Seq<char>, path: Seq<char>, query: Seq<char>) -> Seq<
    char,
> {
    host + path + "?"@ + query
}

/// The value of the authorization header for a credential.
pub open spec fn bearer(secret_key: Seq<char>) -> Seq<char> {
    "Bearer "@ + secret_key
}

/// Whether a configured text, if there is one, can be sent as a header value.
pub open spec fn sendable(text: Option<Seq<char>>) -> bool {
    text matches Some(t) ==> is_header_value(t)
}

impl ClientView {
    /// The text sent under a header name, if the client sends that header.
    pub open spec fn header_text(self, name: Seq<char>) -> Option<Seq<char>> {
        if name == AUTHORIZATION@ {
            Some(bearer(self.secret_key))
        } else if name == STRIPE_ACCOUNT@ {
            self.headers.stripe_account
        } else if name == CLIENT_ID@ {
            self.headers.client_id
        } else if name == STRIPE_VERSION@ {
            self.headers.stripe_version
        } else {
            None
        }
    }

    /// The headers of every request of the client: under each name that has
    /// a text, that text and nothing else.
    pub open spec fn header_set(self) -> Map<Seq<char>, Seq<Seq<u8>>> {
        Map::new(
            |name: Seq<char>| self.header_text(name) is Some,
            |name: Seq<char>| seq![encode_utf8(self.header_text(name)->0)],
        )
    }

    /// The name of the first header, in the order authorization, account,
    /// client, version, whose text cannot be sent as a header value.
    pub open spec fn first_unsendable(self) -> Option<Seq<char>> {
        if !is_header_value(bearer(self.secret_key)) {
            Some(AUTHORIZATION@)
        } else if !sendable(self.headers.stripe_account) {
            Some(STRIPE_ACCOUNT@)
        } else if !sendable(self.headers.client_id) {
            Some(CLIENT_ID@)
        } else if !sendable(self.headers.stripe_version) {
            Some(STRIPE_VERSION@)
        } else {
            None
        }
    }

    /// What building a request for the client ends in: a `Configuration`
    /// error that names the first header whose text cannot be sent, or else
    /// the request with the headers of the client.
    pub open spec fn request(self, method: Method, url: Seq<char>) -> Result<
        RequestView,
        ErrorView,
    > {
        match self.first_unsendable() {
            Some(name) => Err(ErrorView::Configuration(name)),
            None => Ok(RequestView { method, url, headers: self.header_set(), body: None }),
        }
    }

    /// What building a request with a query string ends in: a `Serialize`
    /// error if the parameters could not be encoded, else as `request`.
    pub open spec fn request_with_query(
        self,
        method: Method,
        path: Seq<char>,
        query: Result<Seq<char>, Seq<char>>,
    ) -> Result<RequestView, ErrorView> {
        match query {
            Err(detail) => Err(ErrorView::Serialize(detail)),
            Ok(q) => self.request(method, address_with_query(self.host, path, q)),
        }
    }

    /// What building a request with a form ends in: as `request`, and then a
    /// `Serialize` error if the form could not be encoded, else the request
    /// with the form for its body.
    pub open spec fn request_with_form(
        self,
        path: Seq<char>,
        form: Result<Seq<char>, Seq<char>>,
    ) -> Result<RequestView, ErrorView> {
        match self.request(Method::Post, address(self.host, path)) {
            Err(e) => Err(e),
            Ok(r) => match form {
                Err(detail) => Err(ErrorView::Serialize(detail)),
                Ok(body) => Ok(r.with_form(body)),
            },
        }
    }
}

impl View for Client {
    type V = ClientView;

    closed spec fn view(&self) -> ClientView {
        ClientView { secret_key: self.secret_key@, headers: self.headers@, host: self.host@ }
    }
}

impl Clone for Client {
    fn clone(&self) -> (copy: Client)
        ensures
            copy@ == self@,
    {
        proof {
            use_type_invariant(self);
        }
        Client {
            secret_key: self.secret_key.clone(),
            headers: self.headers.clone(),
            host: self.host.clone(),
        }
    }
}

/// Puts the text under the name, if the text can be sent as a header value.
fn put(headers: &mut HeaderMap, name: &'static str, text: &str) -> (outcome: Result<(), Error>)
    requires
        is_static_header_name(name@),
        known_names().contains(name@),
        header_entries(*old(headers)).dom().subset_of(known_names()),
    ensures
        header_entries(*final(headers)).dom().subset_of(known_names()),
        match outcome {
            Ok(_) => is_header_value(text@) && header_entries(*final(headers)) == header_entries(
                *old(headers),
            ).insert(name@, seq![encode_utf8(text@)]),
            Err(e) => !is_header_value(text@) && e@ == ErrorView::Configuration(name@)
                && header_entries(*final(headers)) == header_entries(*old(headers)),
        },
{
    match header_value(text) {
        Some(value) => {
            proof {
                lemma_known_names_leave_room(*headers);
            }
            insert_header(headers, static_header_name(name), value);
            Ok(())
        },
        None => Err(Error::Configuration(String::from_str(name))),
    }
}

/// Puts the text under the name if there is a text.
fn put_if_set(headers: &mut HeaderMap, name: &'static str, text: &Option<String>) -> (outcome:
    Result<(), Error>)
    requires
        is_static_header_name(name@),
        known_names().contains(name@),
        header_entries(*old(headers)).dom().subset_of(known_names()),
    ensures
        header_entries(*final(headers)).dom().subset_of(known_names()),
        match outcome {
            Ok(_) => sendable(text.deep_view()) && header_entries(*final(headers)) == (match text {
                Some(t) => header_entries(*old(headers)).insert(name@, seq![encode_utf8(t@)]),
                None => header_entries(*old(headers)),
            }),
            Err(e) => !sendable(text.deep_view()) && e@ == ErrorView::Configuration(name@)
                && header_entries(*final(headers)) == header_entries(*old(headers)),
        },
{
    match text {
        Some(t) => put(headers, name, t.as_str()),
        None => Ok(()),
    }
}

impl Client {
    #[verifier::type_invariant]
    spec fn host_is_versioned(self) -> bool {
        ends_in_version(self.host@)
    }

    /// A client for the production host.
    pub fn new(secret_key: &str) -> (client: Client)
        ensures
            client@ == (ClientView {
                secret_key: secret_key@,
                headers: HeadersView::unset(),
                host: "https://api.stripe.com/v1"@,
            }),
    {
        proof {
            reveal_strlit("https://api.stripe.com/");
            reveal_strlit("https://api.stripe.com/v1");
            reveal_strlit("v1");
            assert(resolved_host(DEFAULT_HOST@) =~= "https://api.stripe.com/v1"@);
        }
        Client::from_url(DEFAULT_HOST, secret_key)
    }

    /// A client for the host at `scheme_host`. Any text is taken as it is;
    /// nothing is sent before a request is.
    pub fn from_url(scheme_host: &str, secret_key: &str) -> (client: Client)
        ensures
            client@ == (ClientView {
                secret_key: secret_key@,
                headers: HeadersView::unset(),
                host: resolved_host(scheme_host@),
            }),
    {
        let n = scheme_host.unicode_len();
        let mut host = String::from_str(scheme_host);
        if n > 0 && scheme_host.get_char(n - 1) == '/' {
            host.append("v1");
        } else {
            host.append("/v1");
        }
        proof {
            lemma_resolved_host_ends_in_version(scheme_host@);
        }
        Client { secret_key: String::from_str(secret_key), headers: Headers::default(), host }
    }

    /// A client like this one, but with the given header configuration.
    pub fn with_headers(&self, headers: Headers) -> (client: Client)
        ensures
            client@ == (ClientView {
                secret_key: self@.secret_key,
                headers: headers@,
                host: self@.host,
            }),
    {
        proof {
            use_type_invariant(self);
        }
        Client { secret_key: self.secret_key.clone(), headers, host: self.host.clone() }
    }

    /// Sets the account that the requests of this client act for.
    pub fn set_stripe_account(&mut self, account_id: &str)
        ensures
            final(self)@ == (ClientView {
                secret_key: old(self)@.secret_key,
                headers: HeadersView {
                    stripe_account: Some(account_id@),
                    client_id: old(self)@.headers.client_id,
                    stripe_version: old(self)@.headers.stripe_version,
                },
                host: old(self)@.host,
            }),
    {
        proof {
            use_type_invariant(&*self);
        }
        self.headers.stripe_account = Some(String::from_str(account_id));
    }

    /// The host that requests go to. It ends in the version segment.
    pub fn host(&self) -> (host: &str)
        ensures
            host@ == self@.host,
            ends_in_version(host@),
    {
        proof {
            use_type_invariant(self);
        }
        self.host.as_str()
    }

    /// The address of a path.
    pub fn url(&self, path: &str) -> (url: String)
        requires
            is_path(path@),
        ensures
            url@ == address(self@.host, path@),
    {
        let mut url = self.host.clone();
        url.append(path);
        url
    }

    /// The address of a path with a query string, where `query` is what the
    /// encoder made of the parameters: the query string, or its description
    /// of why they could not be encoded.
    pub fn url_with_params(&self, path: &str, query: Result<String, String>) -> (outcome: Result<
        String,
        Error,
    >)
        requires
            is_path(path@),
        ensures
            match query {
                Ok(q) => outcome matches Ok(url) && url@ == address_with_query(
                    self@.host,
                    path@,
                    q@,
                ),
                Err(detail) => outcome matches Err(e) && e@ == ErrorView::Serialize(detail@),
            },
    {
        match query {
            Ok(q) => {
                let mut url = self.url(path);
                url.append("?");
                url.append(q.as_str());
                Ok(url)
            },
            Err(detail) => Err(Error::Serialize(detail)),
        }
    }

    /// The headers of every request of this client, or a `Configuration`
    /// error that names the first header whose text cannot be sent.
    pub fn headers(&self) -> (outcome: Result<HeaderMap, Error>)
        ensures
            match outcome {
                Ok(headers) => self@.first_unsendable() is None && header_entries(headers)
                    == self@.header_set(),
                Err(e) => self@.first_unsendable() matches Some(name) && e@
                    == ErrorView::Configuration(name),
            },
    {
        proof {
            lemma_known_names();
        }
        let mut headers = new_header_map();
        let mut token = String::from_str("Bearer ");
        token.append(self.secret_key.as_str());
        match put(&mut headers, AUTHORIZATION, token.as_str()) {
            Err(e) => { return Err(e); },
            Ok(_) => {},
        }
        match put_if_set(&mut headers, STRIPE_ACCOUNT, &self.headers.stripe_account) {
            Err(e) => { return Err(e); },
            Ok(_) => {},
        }
        match put_if_set(&mut headers, CLIENT_ID, &self.headers.client_id) {
            Err(e) => { return Err(e); },
            Ok(_) => {},
        }
        match put_if_set(&mut headers, STRIPE_VERSION, &self.headers.stripe_version) {
            Err(e) => { return Err(e); },
            Ok(_) => {},
        }
        assert(header_entries(headers) =~= self@.header_set());
        Ok(headers)
    }

    /// A request without a body to an address.
    fn request(&self, method: Method, url: String) -> (outcome: Result<Request, Error>)
        ensures
            result_view(outcome) == self@.request(method, url@),
    {
        match self.headers() {
            Ok(headers) => {
                proof {
                    lemma_header_set_names(self@);
                }
                Ok(Request::new(method, url, headers, None))
            },
            Err(e) => Err(e),
        }
    }

    /// A `GET` request to a path.
    pub fn get(&self, path: &str) -> (outcome: Result<Request, Error>)
        requires
            is_path(path@),
        ensures
            result_view(outcome) == self@.request(Method::Get, address(self@.host, path@)),
    {
        let url = self.url(path);
        self.request(Method::Get, url)
    }

    /// A `GET` request to a path with a query string, where `query` is what
    /// the encoder made of the parameters.
    pub fn get_query(&self, path: &str, query: Result<String, String>) -> (outcome: Result<
        Request,
        Error,
    >)
        requires
            is_path(path@),
        ensures
            result_view(outcome) == self@.request_with_query(
                Method::Get,
                path@,
                result_view(query),
            ),
    {
        match self.url_with_params(path, query) {
            Ok(url) => self.request(Method::Get, url),
            Err(e) => Err(e),
        }
    }

    /// A `DELETE` request to a path.
    pub fn delete(&self, path: &str) -> (outcome: Result<Request, Error>)
        requires
            is_path(path@),
        ensures
            result_view(outcome) == self@.request(Method::Delete, address(self@.host, path@)),
    {
        let url = self.url(path);
        self.request(Method::Delete, url)
    }

    /// A `DELETE` request to a path with a query string, where `query` is
    /// what the encoder made of the parameters.
    pub fn delete_query(&self, path: &str, query: Result<String, String>) -> (outcome: Result<
        Request,
        Error,
    >)
        requires
            is_path(path@),
        ensures
            result_view(outcome) == self@.request_with_query(
                Method::Delete,
                path@,
                result_view(query),
            ),
    {
        match self.url_with_params(path, query) {
            Ok(url) => self.request(Method::Delete, url),
            Err(e) => Err(e),
        }
    }

    /// A `POST` request to a path, without a body.
    pub fn post(&self, path: &str) -> (outcome: Result<Request, Error>)
        requires
            is_path(path@),
        ensures
            result_view(outcome) == self@.request(Method::Post, address(self@.host, path@)),
    {
        let url = self.url(path);
        self.request(Method::Post, url)
    }

    /// A `POST` request to a path with a form for its body, where `form` is
    /// what the encoder made of the form.
    pub fn post_form(&self, path: &str, form: Result<String, String>) -> (outcome: Result<
        Request,
        Error,
    >)
        requires
            is_path(path@),
        ensures
            result_view(outcome) == self@.request_with_form(path@, result_view(form)),
    {
        let url = self.url(path);
        match self.request(Method::Post, url) {
            Ok(request) => with_form_urlencoded(request, form),
            Err(e) => Err(e),
        }
    }
}

/// A resolved host ends in the version segment, whatever the base.
pub proof fn lemma_resolved_host_ends_in_version(base: Seq<char>)
    ensures
        ends_in_version(resolved_host(base)),
{
    reveal_strlit("v1");
    reveal_strlit("/v1");
    let host = resolved_host(base);
    assert(host.subrange(host.len() - 3, host.len() as int) =~= "/v1"@);
}

/// The headers of a client have known names only.
proof fn lemma_header_set_names(client: ClientView)
    ensures
        client.header_set().dom().subset_of(known_names()),
{
}

/// Requests can be built for a client if and only if neither its credential
/// nor a configured text holds a control character other than the tab.
pub proof fn lemma_buildable_by_chars(client: ClientView)
    ensures
        client.first_unsendable() is None <==> {
            &&& is_value_text(client.secret_key)
            &&& client.headers.stripe_account matches Some(text) ==> is_value_text(text)
            &&& client.headers.client_id matches Some(text) ==> is_value_text(text)
            &&& client.headers.stripe_version matches Some(text) ==> is_value_text(text)
        },
{
    reveal_strlit("Bearer ");
    let token = bearer(client.secret_key);
    lemma_header_value_by_chars(token);
    assert(is_value_text(token) <==> is_value_text(client.secret_key)) by {
        if is_value_text(token) {
            assert forall|i: int| 0 <= i < client.secret_key.len() implies is_value_char(
                #[trigger] client.secret_key[i],
            ) by {
                assert(token[i + 7] == client.secret_key[i]);
            }
        }
        if is_value_text(client.secret_key) {
            assert forall|i: int| 0 <= i < token.len() implies is_value_char(
                #[trigger] token[i],
            ) by {
                if i >= 7 {
                    assert(token[i] == client.secret_key[i - 7]);
                }
            }
        }
    }
    lemma_sendable_by_chars(client.headers.stripe_account);
    lemma_sendable_by_chars(client.headers.client_id);
    lemma_sendable_by_chars(client.headers.stripe_version);
}

/// A configured text can be sent if and only if it holds no control
/// character other than the tab.
proof fn lemma_sendable_by_chars(text: Option<Seq<char>>)
    ensures
        sendable(text) <==> (text matches Some(t) ==> is_value_text(t)),
{
    match text {
        Some(t) => lemma_header_value_by_chars(t),
        None => {},
    }
}

impl RequestView {
    /// Whether the request carries exactly one authorization value, and it
    /// is the word `Bearer`, a space and the credential.
    pub open spec fn has_one_bearer(self, secret_key: Seq<char>) -> bool {
        self.headers.contains_key(AUTHORIZATION@) && self.headers[AUTHORIZATION@] == seq![
            encode_utf8("Bearer "@ + secret_key),
        ]
    }

    /// Whether the request carries a header under `name` if and only if a
    /// text is configured for it, and then that text as the only value.
    pub open spec fn has_as_configured(self, name: Seq<char>, text: Option<Seq<char>>) -> bool {
        match text {
            Some(t) => self.headers.contains_key(name) && self.headers[name] == seq![encode_utf8(t)],
            None => !self.headers.contains_key(name),
        }
    }

    /// Whether the request carries the headers of a client's configuration
    /// and, besides the authorization and a content type, no other.
    pub open spec fn has_configured_headers(self, headers: HeadersView) -> bool {
        &&& self.has_as_configured(STRIPE_ACCOUNT@, headers.stripe_account)
        &&& self.has_as_configured(CLIENT_ID@, headers.client_id)
        &&& self.has_as_configured(STRIPE_VERSION@, headers.stripe_version)
        &&& self.headers.dom().subset_of(known_names())
    }
}

/// Every request of a client, whatever its verb, address, query or form,
/// carries exactly one authorization value: the word `Bearer`, a space and
/// the credential.
pub proof fn lemma_one_bearer_authorization(
    client: ClientView,
    method: Method,
    url: Seq<char>,
    path: Seq<char>,
    encoded: Result<Seq<char>, Seq<char>>,
)
    ensures
        client.request(method, url) matches Ok(r) ==> r.has_one_bearer(client.secret_key),
        client.request_with_query(method, path, encoded) matches Ok(r) ==> r.has_one_bearer(
            client.secret_key,
        ),
        client.request_with_form(path, encoded) matches Ok(r) ==> r.has_one_bearer(
            client.secret_key,
        ),
{
    lemma_known_names();
}

/// Every request of a client carries an optional header if and only if it
/// is configured, with the configured text as its only value, and no header
/// that the library does not know.
pub proof fn lemma_optional_headers_as_configured(
    client: ClientView,
    method: Method,
    url: Seq<char>,
    path: Seq<char>,
    encoded: Result<Seq<char>, Seq<char>>,
)
    ensures
        client.request(method, url) matches Ok(r) ==> r.has_configured_headers(client.headers),
        client.request_with_query(method, path, encoded) matches Ok(r)
            ==> r.has_configured_headers(client.headers),
        client.request_with_form(path, encoded) matches Ok(r) ==> r.has_configured_headers(
            client.headers,
        ),
        client.request(method, url) matches Ok(r) ==> !r.headers.contains_key(CONTENT_TYPE@),
{
    lemma_known_names();
}

} // verus!
