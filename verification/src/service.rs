//! The rules that stand around routing: the answer to a pre-flight
//! request, the header that opens a response to every origin, and the
//! compression of a response for a client that takes it.

use crate::codec::{gzip, gzip_of};
use crate::response::{header_texts, Response, ResponseView};
use crate::text::{contains, occurs_in, same_text};
use vstd::prelude::*;
use vstd::slice::slice_to_vec;
use vstd::string::StringSliceAdditionalSpecFns;
use vstd::utf8::encode_utf8;

verus! {

/// A response as it goes out: status, headers in order, and the bytes of
/// the body.
#[derive(Clone, Debug, PartialEq, Eq)]
pub struct Delivery {
    pub status: u16,
    pub headers: Vec<(String, String)>,
    pub body: Vec<u8>,
}

/// What a delivery says.
pub struct DeliveryView {
    pub status: u16,
    pub headers: Seq<(Seq<char>, Seq<char>)>,
    pub body: Seq<u8>,
}

impl View for Delivery {
    type V = DeliveryView;

    open spec fn view(&self) -> DeliveryView {
        DeliveryView {
            status: self.status,
            headers: header_texts(self.headers@),
            body: self.body@,
        }
    }
}

/// Whether a request with this method is a pre-flight request.
pub open spec fn is_preflight(method: Seq<char>) -> bool {
    method == "OPTIONS"@
}

/// The answer to a pre-flight request: an empty response that allows every
/// origin, the methods of the gateway and the content-type header.
pub open spec fn preflight() -> DeliveryView {
    DeliveryView {
        status: 200,
        headers: seq![
            ("Access-Control-Allow-Origin"@, "*"@),
            ("Access-Control-Allow-Methods"@, "GET, POST, OPTIONS"@),
            ("Access-Control-Allow-Headers"@, "Content-Type"@),
        ],
        body: Seq::empty(),
    }
}

/// The answer to a request at once, where it is a pre-flight request.
pub open spec fn preflight_for(method: Seq<char>) -> Option<DeliveryView> {
    if is_preflight(method) {
        Some(preflight())
    } else {
        None
    }
}

/// Whether the client takes a compressed response: it sent an
/// `Accept-Encoding` header in which `gzip` occurs.
pub open spec fn accepts_gzip(accept_encoding: Option<Seq<char>>) -> bool {
    match accept_encoding {
        Some(value) => occurs_in(value, "gzip"@),
        None => false,
    }
}

/// The headers of a routed response as it goes out: those of the response,
/// the header that opens it to every origin, and the content encoding
/// where the body is compressed.
pub open spec fn delivered_headers(headers: Seq<(Seq<char>, Seq<char>)>, compressed: bool) -> Seq<
    (Seq<char>, Seq<char>),
> {
    let open = headers.push(("Access-Control-Allow-Origin"@, "*"@));
    if compressed {
        open.push(("Content-Encoding"@, "gzip"@))
    } else {
        open
    }
}

/// A routed response as it goes out with the given bytes as its body.
pub open spec fn packed(response: ResponseView, body: Seq<u8>, compressed: bool) -> DeliveryView {
    DeliveryView {
        status: response.status,
        headers: delivered_headers(response.headers, compressed),
        body,
    }
}

/// A routed response as it goes out: open to every origin, with the body
/// as UTF-8, gzip-compressed where the client takes that.
pub open spec fn delivered(response: ResponseView, accept_encoding: Option<Seq<char>>) -> DeliveryView {
    if accepts_gzip(accept_encoding) {
        packed(response, gzip_of(encode_utf8(response.body)), true)
    } else {
        packed(response, encode_utf8(response.body), false)
    }
}

/// What an optional text says.
pub open spec fn optional_text(text: Option<&str>) -> Option<Seq<char>> {
    match text {
        Some(t) => Some(t@),
        None => None,
    }
}

/// What an optional delivery says.
pub open spec fn optional_delivery(delivery: Option<Delivery>) -> Option<DeliveryView> {
    match delivery {
        Some(d) => Some(d@),
        None => None,
    }
}

/// Adds a header at the end of a list of headers.
pub fn add_header(headers: &mut Vec<(String, String)>, name: &str, value: &str)
    ensures
        header_texts(final(headers)@) == header_texts(old(headers)@).push((name@, value@)),
{
    let header = (name.to_owned(), value.to_owned());
    proof {
        assert(header_texts(headers@.push(header)) =~= header_texts(headers@).push(
            (name@, value@),
        ));
    }
    headers.push(header);
}

/// The answer to a pre-flight request.
pub fn preflight_response() -> (delivery: Delivery)
    ensures
        delivery@ == preflight(),
{
    let mut headers: Vec<(String, String)> = Vec::new();
    proof {
        assert(header_texts(headers@) =~= Seq::empty());
    }
    add_header(&mut headers, "Access-Control-Allow-Origin", "*");
    add_header(&mut headers, "Access-Control-Allow-Methods", "GET, POST, OPTIONS");
    add_header(&mut headers, "Access-Control-Allow-Headers", "Content-Type");
    proof {
        assert(header_texts(headers@) =~= preflight().headers);
    }
    Delivery { status: 200, headers, body: Vec::new() }
}

/// Answers a pre-flight request; `None` for every other request, which is
/// then routed.
pub fn answer_preflight(method: &str) -> (delivery: Option<Delivery>)
    ensures
        optional_delivery(delivery) == preflight_for(method@),
{
    if same_text(method, "OPTIONS") {
        Some(preflight_response())
    } else {
        None
    }
}

/// Whether the client takes a compressed response.
pub fn wants_gzip(accept_encoding: Option<&str>) -> (b: bool)
    ensures
        b == accepts_gzip(optional_text(accept_encoding)),
{
    match accept_encoding {
        Some(value) => contains(value, "gzip"),
        None => false,
    }
}

/// Makes a routed response ready to go out with the given bytes as its
/// body; `compressed` says whether they are a gzip stream.
pub fn pack(response: Response, body: Vec<u8>, compressed: bool) -> (delivery: Delivery)
    ensures
        delivery@ == packed(response@, body@, compressed),
{
    let mut headers = response.headers;
    add_header(&mut headers, "Access-Control-Allow-Origin", "*");
    if compressed {
        add_header(&mut headers, "Content-Encoding", "gzip");
    }
    Delivery { status: response.status, headers, body }
}

/// Makes a routed response ready to go out.
pub fn deliver(response: Response, accept_encoding: Option<&str>) -> (delivery: Delivery)
    ensures
        delivery@ == delivered(response@, optional_text(accept_encoding)),
{
    let compressed = wants_gzip(accept_encoding);
    let bytes = response.body.as_str().as_bytes();
    let body = if compressed {
        gzip(bytes)
    } else {
        slice_to_vec(bytes)
    };
    pack(response, body, compressed)
}

} // verus!
