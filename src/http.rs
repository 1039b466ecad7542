//! The response envelope: every response carries the same permissive CORS
//! headers and a content type, and errors carry a JSON `{"message": ...}` body.
use vstd::prelude::*;
use vstd::string::*;

verus! {

/// The request methods that the routes tell apart.
#[derive(Clone, Copy, Debug, PartialEq, Eq, Structural)]
pub enum Method {
    Options,
    Get,
    Post,
    Delete,
    Other,
}

/// One response header.
#[derive(Clone, Debug)]
pub struct Header {
    pub name: String,
    pub value: String,
}

/// A response body.
#[derive(Clone, Debug)]
pub enum Payload {
    Empty,
    Text(String),
    Bytes(Vec<u8>),
}

/// A response, ready to be written out by the transport.
#[derive(Clone, Debug)]
pub struct HttpResponse {
    pub status: u16,
    pub headers: Vec<Header>,
    pub body: Payload,
}

pub const STATUS_OK: u16 = 200;

pub const STATUS_BAD_REQUEST: u16 = 400;

pub const STATUS_INTERNAL_ERROR: u16 = 500;

/// Headers as name/value pairs of character sequences.
pub open spec fn pairs(hs: Seq<Header>) -> Seq<(Seq<char>, Seq<char>)> {
    hs.map_values(|h: Header| (h.name@, h.value@))
}

/// The three CORS headers that every response starts with.
pub open spec fn cors_pairs() -> Seq<(Seq<char>, Seq<char>)> {
    seq![
        ("Access-Control-Allow-Origin"@, "*"@),
        ("Access-Control-Allow-Methods"@, "*"@),
        ("Access-Control-Allow-Headers"@, "*"@),
    ]
}

/// The CORS headers followed by a content type.
pub open spec fn envelope_pairs(content_type: Seq<char>) -> Seq<(Seq<char>, Seq<char>)> {
    cors_pairs().push(("Content-Type"@, content_type))
}

/// The headers of an attachment download.
pub open spec fn attachment_pairs(content_type: Seq<char>, filename: Seq<char>) -> Seq<
    (Seq<char>, Seq<char>),
> {
    envelope_pairs(content_type).push(("Content-Disposition"@, "attachment; filename="@ + filename))
}

/// Whether a response starts with the CORS headers.
pub open spec fn has_cors(r: HttpResponse) -> bool {
    r.headers@.len() >= 3 && pairs(r.headers@).subrange(0, 3) == cors_pairs()
}

/// The lower-case hexadecimal digits.
pub open spec fn hex_digits() -> Seq<char> {
    seq!['0', '1', '2', '3', '4', '5', '6', '7', '8', '9', 'a', 'b', 'c', 'd', 'e', 'f']
}

/// One character as it stands inside a JSON string: `"` and `\` and the
/// control characters below U+0020 are escaped, short forms first and
/// `\u00XX` otherwise; every other character stands as it is.
pub open spec fn json_escape_char(c: char) -> Seq<char> {
    if c == '"' {
        seq!['\\', '"']
    } else if c == '\\' {
        seq!['\\', '\\']
    } else if c == '\u{8}' {
        seq!['\\', 'b']
    } else if c == '\t' {
        seq!['\\', 't']
    } else if c == '\n' {
        seq!['\\', 'n']
    } else if c == '\u{c}' {
        seq!['\\', 'f']
    } else if c == '\r' {
        seq!['\\', 'r']
    } else if (c as u32) < 0x20 {
        seq![
            '\\',
            'u',
            '0',
            '0',
            hex_digits()[(c as u32 / 16) as int],
            hex_digits()[(c as u32 % 16) as int],
        ]
    } else {
        seq![c]
    }
}

/// A text with each character escaped for a JSON string.
pub open spec fn json_escape(s: Seq<char>) -> Seq<char>
    decreases s.len(),
{
    if s.len() == 0 {
        Seq::<char>::empty()
    } else {
        json_escape(s.drop_last()) + json_escape_char(s.last())
    }
}

/// The text of a string as a JSON string literal, quotes included.
pub open spec fn json_string_literal(s: Seq<char>) -> Seq<char> {
    seq!['"'] + json_escape(s) + seq!['"']
}

/// The JSON body of an error response.
pub open spec fn error_body_spec(message: Seq<char>) -> Seq<char> {
    "{\"message\":"@ + json_string_literal(message) + "}"@
}

/// serde_json's error type, carried through opaque.
#[verifier::external_type_specification]
#[verifier::external_body]
pub struct ExJsonError(serde_json::Error);

/// Relies on serde_json::to_string applied to a `str`: it writes the text
/// between quotes into a `Vec<u8>`, which cannot fail, escaping by its table
/// exactly the characters that `json_escape_char` escapes, in the same forms.
#[verifier::external_body]
fn encode_json_string(s: &str) -> (r: Result<String, serde_json::Error>)
    ensures
        r is Ok,
        r matches Ok(t) ==> t@ == json_string_literal(s@),
{
    serde_json::to_string(s)
}

fn header(name: &str, value: &str) -> (r: Header)
    ensures
        r.name@ == name@,
        r.value@ == value@,
{
    Header { name: name.to_owned(), value: value.to_owned() }
}

fn envelope_headers(content_type: &str) -> (r: Vec<Header>)
    ensures
        pairs(r@) == envelope_pairs(content_type@),
{
    let mut hs: Vec<Header> = Vec::new();
    hs.push(header("Access-Control-Allow-Origin", "*"));
    hs.push(header("Access-Control-Allow-Methods", "*"));
    hs.push(header("Access-Control-Allow-Headers", "*"));
    hs.push(header("Content-Type", content_type));
    assert(pairs(hs@) =~= envelope_pairs(content_type@));
    hs
}

/// The answer to a pre-flight request: status 200, the envelope, no body.
pub fn preflight() -> (r: HttpResponse)
    ensures
        r.status == STATUS_OK,
        pairs(r.headers@) == envelope_pairs("application/json"@),
        r.body is Empty,
        has_cors(r),
{
    let r = HttpResponse {
        status: STATUS_OK,
        headers: envelope_headers("application/json"),
        body: Payload::Empty,
    };
    assert(pairs(r.headers@).len() == r.headers@.len());
    assert(pairs(r.headers@).subrange(0, 3) =~= cors_pairs());
    r
}

/// A successful JSON response with the given document as its body.
pub fn json_ok(document: String) -> (r: HttpResponse)
    ensures
        r.status == STATUS_OK,
        pairs(r.headers@) == envelope_pairs("application/json"@),
        r.body matches Payload::Text(t) && t@ == document@,
        has_cors(r),
{
    let r = HttpResponse {
        status: STATUS_OK,
        headers: envelope_headers("application/json"),
        body: Payload::Text(document),
    };
    assert(pairs(r.headers@).len() == r.headers@.len());
    assert(pairs(r.headers@).subrange(0, 3) =~= cors_pairs());
    r
}

/// A successful download: the bytes, their media type, and the file name that
/// a client should save them under.
pub fn attachment_ok(content_type: &str, filename: &str, bytes: Vec<u8>) -> (r: HttpResponse)
    ensures
        r.status == STATUS_OK,
        pairs(r.headers@) == attachment_pairs(content_type@, filename@),
        r.body == Payload::Bytes(bytes),
        has_cors(r),
{
    let mut headers = envelope_headers(content_type);
    let disposition = String::from_str("attachment; filename=").concat(filename);
    headers.push(header("Content-Disposition", disposition.as_str()));
    let r = HttpResponse { status: STATUS_OK, headers, body: Payload::Bytes(bytes) };
    assert(pairs(r.headers@) =~= attachment_pairs(content_type@, filename@));
    assert(pairs(r.headers@).subrange(0, 3) =~= cors_pairs());
    r
}

/// An error response with the given status and a `{"message": ...}` body.
fn error_response(status: u16, message: &str) -> (r: HttpResponse)
    ensures
        is_error_response(r, status, message@),
{
    let headers = envelope_headers("application/json");
    let quoted = match encode_json_string(message) {
        Ok(quoted) => quoted,
        Err(_) => String::new(),
    };
    let body = String::from_str("{\"message\":").concat(quoted.as_str()).concat("}");
    let r = HttpResponse { status, headers, body: Payload::Text(body) };
    assert(pairs(r.headers@).len() == r.headers@.len());
    assert(pairs(r.headers@).subrange(0, 3) =~= cors_pairs());
    r
}

/// Whether `r` is an error response with status `status` whose JSON body
/// carries `message`.
pub open spec fn is_error_response(r: HttpResponse, status: u16, message: Seq<char>) -> bool {
    &&& r.status == status
    &&& pairs(r.headers@) == envelope_pairs("application/json"@)
    &&& has_cors(r)
    &&& r.body matches Payload::Text(t) && t@ == error_body_spec(message)
}

/// The response to a malformed request: status 400 and the message.
pub fn bad_request(message: &str) -> (r: HttpResponse)
    ensures
        is_error_response(r, STATUS_BAD_REQUEST, message@),
{
    error_response(STATUS_BAD_REQUEST, message)
}

/// The response to any other failure: status 500 and the message.
pub fn internal_error(message: &str) -> (r: HttpResponse)
    ensures
        is_internal_error(r, message@),
{
    error_response(STATUS_INTERNAL_ERROR, message)
}

/// Whether `r` is an internal-error response whose body carries `message`.
pub open spec fn is_internal_error(r: HttpResponse, message: Seq<char>) -> bool {
    is_error_response(r, STATUS_INTERNAL_ERROR, message)
}

} // verus!
