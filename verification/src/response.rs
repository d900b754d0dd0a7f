//! The HTTP response the service hands back, as plain values.

use vstd::prelude::*;

verus! {

/// An HTTP response: a status, the content type where one is set, and a body.
#[derive(Debug, Clone, PartialEq, Eq)]
pub struct Response {
    pub status: u16,
    pub content_type: Option<String>,
    pub body: String,
}

/// What a `Response` holds, with its texts as sequences of characters.
pub struct ResponseView {
    pub status: u16,
    pub content_type: Option<Seq<char>>,
    pub body: Seq<char>,
}

impl View for Response {
    type V = ResponseView;

    open spec fn view(&self) -> ResponseView {
        ResponseView {
            status: self.status,
            content_type: match self.content_type {
                Some(kind) => Some(kind@),
                None => None,
            },
            body: self.body@,
        }
    }
}

/// The content type of every response that carries a document.
pub open spec fn json_content_type() -> Seq<char> {
    "application/json"@
}

/// A response with `status` whose body is the JSON document `body`.
pub open spec fn json_response(status: u16, body: Seq<char>) -> ResponseView {
    ResponseView { status, content_type: Some(json_content_type()), body }
}

/// A response with `status`, no content type and an empty body.
pub open spec fn bare_response(status: u16) -> ResponseView {
    ResponseView { status, content_type: None, body: Seq::empty() }
}

impl Response {
    /// Returns the response with `status` that carries the JSON document
    /// `body`.
    pub fn json(status: u16, body: String) -> (response: Response)
        ensures
            response@ == json_response(status, body@),
    {
        Response { status, content_type: Some(String::from_str("application/json")), body }
    }

    /// Returns the response with `status` and nothing else.
    pub fn bare(status: u16) -> (response: Response)
        ensures
            response@ == bare_response(status),
    {
        Response { status, content_type: None, body: String::new() }
    }
}

} // verus!
