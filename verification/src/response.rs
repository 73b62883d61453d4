//! What a route answers: a status, the two headers the site uses, a body.

use vstd::prelude::*;
use crate::markup::Markup;

verus! {

/// An HTTP response, as far as this site gives one.
#[derive(Clone, Debug, PartialEq, Eq)]
pub struct Response {
    pub status: u16,
    pub content_type: Option<String>,
    pub location: Option<String>,
    pub body: String,
}

/// A [`Response`] with its texts as sequences of characters.
pub struct ResponseView {
    pub status: u16,
    pub content_type: Option<Seq<char>>,
    pub location: Option<Seq<char>>,
    pub body: Seq<char>,
}

impl View for Response {
    type V = ResponseView;

    open spec fn view(&self) -> ResponseView {
        ResponseView {
            status: self.status,
            content_type: match self.content_type {
                Some(text) => Some(text@),
                None => None,
            },
            location: match self.location {
                Some(text) => Some(text@),
                None => None,
            },
            body: self.body@,
        }
    }
}

/// The response that serves `body` as a page: 200, typed as HTML in UTF-8.
pub open spec fn page_response(body: Seq<char>) -> ResponseView {
    ResponseView {
        status: 200,
        content_type: Some("text/html; charset=utf-8"@),
        location: None,
        body,
    }
}

/// The response that sends the client on to `location` with `status` and
/// without a body.
pub open spec fn redirect_response(status: u16, location: Seq<char>) -> ResponseView {
    ResponseView { status, content_type: None, location: Some(location), body: Seq::empty() }
}

/// A redirection: the status to answer with and where to send the client.
#[derive(Clone, Debug, PartialEq, Eq)]
pub struct Redirect {
    pub status: u16,
    pub location: String,
}

impl Redirect {
    /// A redirection to `location` with status 303, See Other.
    pub fn to(location: &str) -> (redirect: Redirect)
        ensures
            redirect.status == 303,
            redirect.location@ == location@,
    {
        Redirect { status: 303, location: location.to_owned() }
    }
}

impl Response {
    /// Answers with `markup` as an HTML page.
    pub fn page(markup: Markup) -> (response: Response)
        ensures
            response@ == page_response(markup@),
    {
        Response {
            status: 200,
            content_type: Some("text/html; charset=utf-8".to_owned()),
            location: None,
            body: markup.into_string(),
        }
    }

    /// Answers with `redirect`.
    pub fn redirect(redirect: Redirect) -> (response: Response)
        ensures
            response@ == redirect_response(redirect.status, redirect.location@),
    {
        Response {
            status: redirect.status,
            content_type: None,
            location: Some(redirect.location),
            body: String::new(),
        }
    }
}

} // verus!
