//! The optional headers of a client.

use vstd::prelude::*;

verus! {

/// The headers a client sends besides its authorization: each one is sent
/// if and only if it is set here.
#[derive(Debug, PartialEq, Eq)]
pub struct Headers {
    /// The account on whose behalf requests are made.
    pub stripe_account: Option<String>,
    /// The identifier of the calling application.
    pub client_id: Option<String>,
    /// The version of the API that requests ask for.
    pub stripe_version: Option<String>,
}

/// A header configuration as plain text.
pub struct HeadersView {
    pub stripe_account: Option<Seq<char>>,
    pub client_id: Option<Seq<char>>,
    pub stripe_version: Option<Seq<char>>,
}

impl HeadersView {
    /// The configuration in which nothing is set.
    pub open spec fn unset() -> HeadersView {
        HeadersView { stripe_account: None, client_id: None, stripe_version: None }
    }
}

impl View for Headers {
    type V = HeadersView;

    open spec fn view(&self) -> HeadersView {
        HeadersView {
            stripe_account: self.stripe_account.deep_view(),
            client_id: self.client_id.deep_view(),
            stripe_version: self.stripe_version.deep_view(),
        }
    }
}

/// A copy of an optional text.
pub(crate) fn clone_text(text: &Option<String>) -> (copy: Option<String>)
    ensures
        copy.deep_view() == text.deep_view(),
{
    match text {
        Some(s) => Some(s.clone()),
        None => None,
    }
}

impl Default for Headers {
    /// The configuration in which nothing is set.
    fn default() -> (headers: Headers)
        ensures
            headers@ == HeadersView::unset(),
    {
        Headers { stripe_account: None, client_id: None, stripe_version: None }
    }
}

impl Clone for Headers {
    fn clone(&self) -> (copy: Headers)
        ensures
            copy@ == self@,
    {
        Headers {
            stripe_account: clone_text(&self.stripe_account),
            client_id: clone_text(&self.client_id),
            stripe_version: clone_text(&self.stripe_version),
        }
    }
}

} // verus!
