//! The responses that the gateway gives.

use vstd::prelude::*;
use vstd::string::StringExecFns;

verus! {

/// A response to the client: status, headers in order, and the body as text.
#[derive(Clone, Debug, PartialEq, Eq)]
pub struct Response {
    pub status: u16,
    pub headers: Vec<(String, String)>,
    pub body: String,
}

/// What a response says.
pub struct ResponseView {
    pub status: u16,
    pub headers: Seq<(Seq<char>, Seq<char>)>,
    pub body: Seq<char>,
}

/// What a list of headers says, header by header.
pub open spec fn header_texts(headers: Seq<(String, String)>) -> Seq<(Seq<char>, Seq<char>)> {
    headers.map_values(|header: (String, String)| (header.0@, header.1@))
}

impl View for Response {
    type V = ResponseView;

    open spec fn view(&self) -> ResponseView {
        ResponseView {
            status: self.status,
            headers: header_texts(self.headers@),
            body: self.body@,
        }
    }
}

/// A response without headers.
pub open spec fn plain(status: u16, body: Seq<char>) -> ResponseView {
    ResponseView { status, headers: Seq::empty(), body }
}

/// A successful response whose body is JSON text.
pub open spec fn json_ok(body: Seq<char>) -> ResponseView {
    ResponseView {
        status: 200,
        headers: seq![("Content-Type"@, "application/json"@)],
        body,
    }
}

/// The response to a path that no route serves.
pub open spec fn no_route() -> ResponseView {
    plain(404, "Not Found"@)
}

/// The response to a request that lacks a part of its path.
pub open spec fn bad_request(message: Seq<char>) -> ResponseView {
    plain(400, message)
}

/// The response where the backend could not be reached.
pub open spec fn backend_unreachable(detail: Seq<char>) -> ResponseView {
    plain(500, "Elasticsearch error: "@ + detail)
}

impl Response {
    /// A response without headers.
    pub fn plain(status: u16, body: &str) -> (r: Response)
        ensures
            r@ == plain(status, body@),
    {
        let r = Response { status, headers: Vec::new(), body: body.to_owned() };
        proof {
            assert(header_texts(r.headers@) =~= Seq::empty());
        }
        r
    }

    /// A successful response whose body is JSON text.
    pub fn json_ok(body: String) -> (r: Response)
        ensures
            r@ == json_ok(body@),
    {
        let mut headers: Vec<(String, String)> = Vec::new();
        headers.push(("Content-Type".to_owned(), "application/json".to_owned()));
        let r = Response { status: 200, headers, body };
        proof {
            assert(header_texts(r.headers@) =~= seq![("Content-Type"@, "application/json"@)]);
        }
        r
    }

    /// The response to a path that no route serves.
    pub fn no_route() -> (r: Response)
        ensures
            r@ == no_route(),
    {
        Response::plain(404, "Not Found")
    }

    /// The response to a request that lacks a part of its path.
    pub fn bad_request(message: &str) -> (r: Response)
        ensures
            r@ == bad_request(message@),
    {
        Response::plain(400, message)
    }

    /// The response where the backend could not be reached; `detail` says
    /// what went wrong.
    pub fn backend_unreachable(detail: &str) -> (r: Response)
        ensures
            r@ == backend_unreachable(detail@),
    {
        let body = "Elasticsearch error: ".to_owned().concat(detail);
        Response::plain(500, body.as_str())
    }
}

} // verus!
