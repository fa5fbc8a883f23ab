//! Response building: every response the service sends carries the same
//! three CORS headers, a status code, and a body.

use vstd::prelude::*;
use vstd::string::StringExecFns;

verus! {

/// An HTTP response, ready for the server edge to send.
pub struct HttpResponse {
    pub status: u16,
    pub headers: Vec<(String, String)>,
    pub body: String,
}

/// Header pairs as character sequences.
pub open spec fn headers_view(h: Seq<(String, String)>) -> Seq<(Seq<char>, Seq<char>)> {
    Seq::new(h.len(), |i: int| (h[i].0@, h[i].1@))
}

/// The three CORS headers every response carries.
pub open spec fn cors_header_chars() -> Seq<(Seq<char>, Seq<char>)> {
    seq![
        ("Access-Control-Allow-Origin"@, "*"@),
        ("Access-Control-Allow-Methods"@, "GET, POST, OPTIONS"@),
        ("Access-Control-Allow-Headers"@, "api,Keep-Alive,User-Agent,Content-Type"@),
    ]
}

/// A response with the given status and body, and exactly the CORS headers.
pub open spec fn resp_is(r: HttpResponse, status: int, body: Seq<char>) -> bool {
    r.status == status && r.body@ == body && headers_view(r.headers@) == cors_header_chars()
}

/// The help text served at the root path.
pub open spec fn usage_chars() -> Seq<char> {
    "Service endpoints: /init /create /update /delete /architectures"@
}

/// The body sent when a create or update payload cannot be decoded.
pub open spec fn bad_body_chars() -> Seq<char> {
    "{\"error\":\"deserialization\",\"message\":\"malformed record body\"}"@
}

/// The body sent when a delete request carries no usable id.
pub open spec fn bad_query_chars() -> Seq<char> {
    "{\"error\":\"bad_query\",\"message\":\"missing or non-numeric id\"}"@
}

/// The body sent when the storage engine fails.
pub open spec fn storage_error_chars() -> Seq<char> {
    "{\"error\":\"storage\",\"message\":\"statement failed\"}"@
}

fn cors_headers() -> (r: Vec<(String, String)>)
    ensures
        headers_view(r@) == cors_header_chars(),
{
    let mut h: Vec<(String, String)> = Vec::new();
    h.push((String::from_str("Access-Control-Allow-Origin"), String::from_str("*")));
    h.push((String::from_str("Access-Control-Allow-Methods"), String::from_str("GET, POST, OPTIONS")));
    h.push(
        (
            String::from_str("Access-Control-Allow-Headers"),
            String::from_str("api,Keep-Alive,User-Agent,Content-Type"),
        ),
    );
    proof {
        assert(headers_view(h@) =~= cors_header_chars());
    }
    h
}

/// Wraps a body in a 200 response with the fixed CORS headers.
pub fn response_build(body: String) -> (r: HttpResponse)
    ensures
        resp_is(r, 200, body@),
{
    HttpResponse { status: 200, headers: cors_headers(), body }
}

/// A response with the given status, the fixed CORS headers, and a body
/// copied from the given text.
pub fn response_with_status(status: u16, body: &str) -> (r: HttpResponse)
    ensures
        resp_is(r, status as int, body@),
{
    HttpResponse { status, headers: cors_headers(), body: String::from_str(body) }
}

/// The 404 sent for any unmatched method and path: empty body.
pub fn not_found() -> (r: HttpResponse)
    ensures
        resp_is(r, 404, Seq::<char>::empty()),
{
    let r = HttpResponse { status: 404, headers: cors_headers(), body: String::new() };
    r
}

/// The help response for the root path.
pub fn usage_response() -> (r: HttpResponse)
    ensures
        resp_is(r, 200, usage_chars()),
{
    response_with_status(200, "Service endpoints: /init /create /update /delete /architectures")
}

/// The empty 200 answering a CORS preflight.
pub fn preflight_response() -> (r: HttpResponse)
    ensures
        resp_is(r, 200, Seq::<char>::empty()),
{
    let r = HttpResponse { status: 200, headers: cors_headers(), body: String::new() };
    r
}

/// The 400 for an undecodable create or update payload.
pub fn bad_body_response() -> (r: HttpResponse)
    ensures
        resp_is(r, 400, bad_body_chars()),
{
    response_with_status(400, "{\"error\":\"deserialization\",\"message\":\"malformed record body\"}")
}

/// The 400 for a delete request without a usable id.
pub fn bad_query_response() -> (r: HttpResponse)
    ensures
        resp_is(r, 400, bad_query_chars()),
{
    response_with_status(400, "{\"error\":\"bad_query\",\"message\":\"missing or non-numeric id\"}")
}

/// The 500 for a failed statement.
pub fn storage_error_response() -> (r: HttpResponse)
    ensures
        resp_is(r, 500, storage_error_chars()),
{
    response_with_status(500, "{\"error\":\"storage\",\"message\":\"statement failed\"}")
}

} // verus!
