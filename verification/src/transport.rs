//! What the library asks of the transport, and what it takes back.
//!
//! A [`Request`] describes one HTTP exchange in plain values. The caller sends
//! it, with the headers and proxies of the session and within
//! [`TIMEOUT_SECS`], and reports what came of it as an [`Outcome`]. The
//! library never interprets an HTTP status: a reply is its body.

use vstd::prelude::*;
use vstd::utf8::encode_utf8;

use crate::error::ClientError;
use crate::proxy::ProxyEndpoint;

verus! {

/// The number of seconds after which a request is given up. It bounds every
/// call; no operation overrides it.
pub const TIMEOUT_SECS: u64 = 10;

/// The HTTP methods that the operations use.
#[derive(Clone, Copy, Debug, PartialEq, Eq, Structural)]
pub enum Method {
    Get,
    Post,
    Delete,
}

/// One header line.
#[derive(Debug, PartialEq, Eq)]
pub struct Header {
    pub name: String,
    pub value: String,
}

/// The mathematical value of a [`Header`].
pub struct HeaderLine {
    pub name: Seq<char>,
    pub value: Seq<char>,
}

/// A multipart form that uploads one file: a text field with the organization
/// and a file part that is streamed from disk under a declared name and type.
#[derive(Debug, PartialEq, Eq)]
pub struct Form {
    pub org_uuid: String,
    pub file_path: String,
    pub file_name: String,
    pub mime: String,
}

/// The mathematical value of a [`Form`].
pub struct FormFields {
    pub org_uuid: Seq<char>,
    pub file_path: Seq<char>,
    pub file_name: Seq<char>,
    pub mime: Seq<char>,
}

/// What a request carries. A request has a body or a form, never both.
#[derive(Debug, PartialEq, Eq)]
pub enum Payload {
    Empty,
    Body(String),
    Form(Form),
}

/// The mathematical value of a [`Payload`].
pub enum PayloadContent {
    Empty,
    Body(Seq<char>),
    Form(FormFields),
}

/// One HTTP exchange to perform.
#[derive(Debug, PartialEq, Eq)]
pub struct Request {
    pub method: Method,
    pub url: String,
    pub payload: Payload,
}

/// The mathematical value of a [`Request`].
pub struct RequestPlan {
    pub method: Method,
    pub url: Seq<char>,
    pub payload: PayloadContent,
}

/// How the requests of a session are to be sent: through which proxies, with
/// which headers, and within what time. Without proxies the connection is
/// direct.
#[derive(Debug)]
pub struct Transport<'a> {
    pub proxies: &'a Vec<ProxyEndpoint>,
    pub headers: &'a Vec<Header>,
    pub timeout_secs: u64,
}

/// What came of sending a request.
#[derive(Debug, PartialEq, Eq)]
pub enum Outcome {
    /// The exchange completed; this is the body of the response, whatever its
    /// status.
    Replied(Vec<u8>),
    /// The exchange did not complete: DNS, connect, proxy, TLS or timeout.
    Failed,
}

/// What came of an upload, which has a file to open before anything is sent.
#[derive(Debug, PartialEq, Eq)]
pub enum UploadOutcome {
    /// The file could not be opened; nothing was sent.
    Unreadable,
    /// The file was opened and the request sent.
    Sent(Outcome),
}

impl View for Header {
    type V = HeaderLine;

    open spec fn view(&self) -> HeaderLine {
        HeaderLine { name: self.name@, value: self.value@ }
    }
}

impl View for Form {
    type V = FormFields;

    open spec fn view(&self) -> FormFields {
        FormFields {
            org_uuid: self.org_uuid@,
            file_path: self.file_path@,
            file_name: self.file_name@,
            mime: self.mime@,
        }
    }
}

impl View for Payload {
    type V = PayloadContent;

    open spec fn view(&self) -> PayloadContent {
        match self {
            Payload::Empty => PayloadContent::Empty,
            Payload::Body(text) => PayloadContent::Body(text@),
            Payload::Form(form) => PayloadContent::Form(form@),
        }
    }
}

impl View for Request {
    type V = RequestPlan;

    open spec fn view(&self) -> RequestPlan {
        RequestPlan { method: self.method, url: self.url@, payload: self.payload@ }
    }
}

/// The values of a list of headers.
pub open spec fn lines_of(headers: Seq<Header>) -> Seq<HeaderLine> {
    Seq::new(headers.len(), |i: int| headers[i]@)
}

/// Whether a byte may stand in the value of a header: a tab, or anything from
/// the space on but the delete character.
pub open spec fn header_byte_ok(b: u8) -> bool {
    (b >= 32 && b != 127) || b == 9
}

/// Whether `text` can be sent as the value of a header.
pub open spec fn header_value_ok(text: Seq<char>) -> bool {
    forall|i: int| 0 <= i < encode_utf8(text).len() ==> header_byte_ok(#[trigger] encode_utf8(text)[i])
}

/// The page of the service that requests claim to come from.
pub open spec fn referer_of(host: Seq<char>) -> Seq<char> {
    "https://"@ + host + "/chats"@
}

/// The headers that every request of a session carries. All are fixed but the
/// cookie and what names the host of the service.
pub open spec fn base_lines(host: Seq<char>, cookie: Seq<char>) -> Seq<HeaderLine> {
    seq![
        HeaderLine { name: "host"@, value: host },
        HeaderLine { name: "cookie"@, value: cookie },
        HeaderLine { name: "referer"@, value: referer_of(host) },
        HeaderLine { name: "content-type"@, value: "application/json"@ },
        HeaderLine { name: "accept"@, value: "*/*"@ },
        HeaderLine {
            name: "user-agent"@,
            value: "Mozilla/5.0 (Macintosh; Intel Mac OS X 10_15_7) AppleWebKit/537.36 (KHTML, like Gecko) Chrome/115.0.0.0 Safari/537.36 Edg/115.0.1901.183"@,
        },
        HeaderLine {
            name: "accept-language"@,
            value: "en-US,en;q=0.9,zh-CN;q=0.8,zh;q=0.7,en-GB;q=0.6"@,
        },
    ]
}

/// `reqwest::header::HeaderValue::from_str`: whether `text` is accepted as the
/// value of a header. It is when each of its bytes is a tab or at least a
/// space and not the delete character.
#[verifier::external_body]
pub(crate) fn is_header_value(text: &str) -> (ok: bool)
    ensures
        ok == header_value_ok(text@),
{
    reqwest::header::HeaderValue::from_str(text).is_ok()
}

/// The transport that routes through each of `proxies`, sends `headers` with
/// every request and gives a request up after `timeout_secs` seconds. Nothing
/// is sent or connected by this.
pub fn build<'a>(
    proxies: &'a Vec<ProxyEndpoint>,
    headers: &'a Vec<Header>,
    timeout_secs: u64,
) -> (transport: Transport<'a>)
    ensures
        transport.proxies@ == proxies@,
        transport.headers@ == headers@,
        transport.timeout_secs == timeout_secs,
{
    Transport { proxies, headers, timeout_secs }
}

impl Header {
    /// A header line from its two parts.
    pub fn new(name: &str, value: &str) -> (header: Header)
        ensures
            header@ == (HeaderLine { name: name@, value: value@ }),
    {
        Header { name: name.to_owned(), value: value.to_owned() }
    }
}

/// Whether a session with the service at `host` that authenticates with
/// `cookie` can state its headers: each value that depends on the two can be
/// sent as one.
pub open spec fn headers_ok(host: Seq<char>, cookie: Seq<char>) -> bool {
    header_value_ok(host) && header_value_ok(cookie) && header_value_ok(referer_of(host))
}

/// The headers of a session with the service at `host` that authenticates
/// with `cookie`. A value that cannot stand in a header fails the
/// construction.
pub fn base_headers(host: &str, cookie: &str) -> (headers: Result<Vec<Header>, ClientError>)
    ensures
        headers is Ok <==> headers_ok(host@, cookie@),
        headers is Ok ==> lines_of(headers->Ok_0@) == base_lines(host@, cookie@),
        headers is Err ==> headers->Err_0 == ClientError::Construct,
{
    let mut referer = "https://".to_owned();
    referer.append(host);
    referer.append("/chats");
    if !is_header_value(host) || !is_header_value(cookie) || !is_header_value(referer.as_str()) {
        return Err(ClientError::Construct);
    }
    let mut headers: Vec<Header> = Vec::new();
    headers.push(Header::new("host", host));
    headers.push(Header::new("cookie", cookie));
    headers.push(Header::new("referer", referer.as_str()));
    headers.push(Header::new("content-type", "application/json"));
    headers.push(Header::new("accept", "*/*"));
    headers.push(
        Header::new(
            "user-agent",
            "Mozilla/5.0 (Macintosh; Intel Mac OS X 10_15_7) AppleWebKit/537.36 (KHTML, like Gecko) Chrome/115.0.0.0 Safari/537.36 Edg/115.0.1901.183",
        ),
    );
    headers.push(
        Header::new("accept-language", "en-US,en;q=0.9,zh-CN;q=0.8,zh;q=0.7,en-GB;q=0.6"),
    );
    assert(lines_of(headers@) == base_lines(host@, cookie@));
    Ok(headers)
}

} // verus!
