//! Responses and the two stock renderers.

use vstd::prelude::*;
use crate::status::{status_line, Status};

verus! {

/// What a response is made of: a status number, headers in insertion order
/// and a textual body.
pub struct ResponseView {
    pub status: u16,
    pub headers: Seq<(Seq<char>, Seq<char>)>,
    pub body: Seq<char>,
}

/// A response handed back to the HTTP layer.
#[derive(Debug, PartialEq, Eq)]
pub struct Response {
    pub status: Status,
    /// Header names and values, in insertion order; a name may repeat.
    pub headers: Vec<(String, String)>,
    pub body: String,
}

impl View for Response {
    type V = ResponseView;

    open spec fn view(&self) -> ResponseView {
        ResponseView {
            status: self.status.value(),
            headers: self.headers@.map_values(|h: (String, String)| (h.0@, h.1@)),
            body: self.body@,
        }
    }
}

/// A response with the given status and body and no headers.
pub open spec fn plain_view(status: u16, body: Seq<char>) -> ResponseView {
    ResponseView { status, headers: Seq::empty(), body }
}

/// What the generic renderer produces for a status code.
pub open spec fn default_view(status: u16) -> ResponseView {
    plain_view(status, status_line(status))
}

impl Response {
    /// A response with no headers.
    pub fn new(status: Status, body: String) -> (r: Response)
        ensures
            r@ == plain_view(status.value(), body@),
            r.status == status,
            r.body == body,
    {
        let r = Response { status, headers: Vec::new(), body };
        assert(r@.headers =~= Seq::empty());
        r
    }

    /// This response with one more header after the others.
    pub fn with_header(self, name: String, value: String) -> (r: Response)
        ensures
            r.status == self.status,
            r.body == self.body,
            r.headers@ == self.headers@.push((name, value)),
            r@.headers == self@.headers.push((name@, value@)),
    {
        let Response { status, mut headers, body } = self;
        headers.push((name, value));
        let r = Response { status, headers, body };
        assert(r@.headers =~= self@.headers.push((name@, value@)));
        r
    }
}

/// The generic renderer: the status number and its reason phrase as the
/// body, such as `404 Not Found`, and no headers.
pub fn default_response(code: Status) -> (r: Response)
    ensures
        r@ == default_view(code.value()),
        r.status == code,
{
    let body = code.line();
    Response::new(code, body)
}

/// The transparent renderer: the failure's textual form as the body. It
/// never declines.
pub fn transparent(code: Status, text: String) -> (r: Option<Response>)
    ensures
        r matches Some(resp) && resp@ == plain_view(code.value(), text@) && resp.status == code
            && resp.body == text,
{
    Some(Response::new(code, text))
}

/// The generic renderer is deterministic: two calls with the same code give
/// identical responses.
pub proof fn lemma_default_response_deterministic(code: Status, r1: Response, r2: Response)
    requires
        call_ensures(default_response, (code,), r1),
        call_ensures(default_response, (code,), r2),
    ensures
        r1@ == r2@,
        r1.status == r2.status,
{
}

} // verus!
