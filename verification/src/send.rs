use vstd::prelude::*;
use vstd::string::StringExecFns;
use crate::digest::{generate_header, sha256_header_of, wire_form};
use crate::error::Error;
use crate::relay::{url_host, url_host_of};

verus! {

/// The first second that `httpdate` does not write: the start of the year 10000.
pub const DATE_LIMIT: u64 = 253402300800;

/// What `httpdate::fmt_http_date` writes for the time this many seconds after the epoch.
pub uninterp spec fn http_date_of(secs: u64) -> Seq<char>;

/// `httpdate::fmt_http_date`: the time as an HTTP date in GMT. It refuses the year 10000
/// and what comes after.
#[verifier::external_body]
pub(crate) fn http_date(secs: u64) -> (r: String)
    requires
        secs < DATE_LIMIT,
    ensures
        r@ == http_date_of(secs),
{
    httpdate::fmt_http_date(std::time::UNIX_EPOCH + std::time::Duration::from_secs(secs))
}

/// A header of a request.
#[derive(Debug)]
pub struct Header {
    pub name: String,
    pub value: String,
}

/// A request as it is handed over to be signed and sent.
#[derive(Debug)]
pub struct Request {
    pub method: String,
    pub uri: String,
    pub headers: Vec<Header>,
    pub body: Vec<u8>,
}

/// Whether the header has that name and that value.
pub open spec fn header_is(header: Header, name: Seq<char>, value: Seq<char>) -> bool {
    header.name@ == name && header.value@ == value
}

/// The headers that each request carries before it is signed: `host`, `content-type`, and
/// `date`.
pub open spec fn common_headers(headers: Seq<Header>, host: Seq<char>, date: Seq<char>) -> bool {
    &&& headers.len() >= 3
    &&& header_is(headers[0], "host"@, host)
    &&& header_is(headers[1], "content-type"@, "application/activity+json"@)
    &&& header_is(headers[2], "date"@, date)
}

/// Whether the request is the `POST` of `body` to `uri` with the headers `host`,
/// `content-type`, `date` and `digest`, in this order.
pub open spec fn is_post(
    request: Request,
    uri: Seq<char>,
    host: Seq<char>,
    date: Seq<char>,
    digest: Seq<char>,
    body: Vec<u8>,
) -> bool {
    &&& request.method@ == "POST"@
    &&& request.uri@ == uri
    &&& request.body == body
    &&& request.headers@.len() == 4
    &&& common_headers(request.headers@, host, date)
    &&& header_is(request.headers@[3], "digest"@, digest)
}

/// The host of the URI as the `host` header has it, where the URI is a URL with a host.
pub open spec fn host_of(uri: Seq<char>) -> Option<Seq<char>> {
    match url_host_of(uri) {
        Some(Some(h)) => Some(h),
        _ => None,
    }
}

/// Whether `r` is what the making of the `POST` of `body` to `uri` at the time `now` comes
/// to: `InvalidUri` where `uri` is no URL with a host; else the request with its four
/// headers, or `Digest` where the digest of the body could not be made.
pub open spec fn posts(r: Result<Request, Error>, uri: Seq<char>, body: Vec<u8>, now: u64) -> bool {
    match host_of(uri) {
        None => r matches Err(Error::InvalidUri),
        Some(host) => match r {
            Ok(request) => is_post(
                request,
                uri,
                host,
                http_date_of(now),
                wire_form(sha256_header_of(body@)),
                body,
            ),
            Err(e) => e is Digest,
        },
    }
}

/// The header with that name and that value.
pub fn header(name: &str, value: String) -> (r: Header)
    ensures
        header_is(r, name@, value@),
{
    Header { name: String::from_str(name), value }
}

/// The time as the `date` header has it, where it can be written.
pub fn date_header(now: u64) -> (r: Option<String>)
    ensures
        match r {
            Some(d) => now < DATE_LIMIT && d@ == http_date_of(now),
            None => now >= DATE_LIMIT,
        },
{
    if now < DATE_LIMIT {
        Some(http_date(now))
    } else {
        None
    }
}

/// The host of the URI, or `InvalidUri`.
pub fn request_host(uri: &str) -> (r: Result<String, Error>)
    ensures
        match host_of(uri@) {
            Some(h) => r matches Ok(host) && host@ == h,
            None => r matches Err(Error::InvalidUri),
        },
{
    match url_host(uri) {
        Some(Some(h)) => Ok(h),
        _ => Err(Error::InvalidUri),
    }
}

/// The `POST` of `body` to `uri` with the headers `host`, `content-type`, `date` and
/// `digest`, in this order.
pub fn post_request(uri: &str, host: String, date: String, digest: String, body: Vec<u8>) -> (r: Request)
    ensures
        is_post(r, uri@, host@, date@, digest@, body),
{
    let mut headers: Vec<Header> = Vec::new();
    headers.push(header("host", host));
    headers.push(header("content-type", String::from_str("application/activity+json")));
    headers.push(header("date", date));
    headers.push(header("digest", digest));
    Request { method: String::from_str("POST"), uri: String::from_str(uri), headers, body }
}

/// The `POST` of `body` to `uri` at the time `now`, in seconds after the epoch, ready to be
/// signed: with the headers `host`, `content-type`, `date` and `digest`, in this order.
/// It fails with `InvalidUri` where `uri` is no URL with a host, else with `Digest` where
/// the digest of the body cannot be made.
pub fn send_raw(uri: &str, body: Vec<u8>, now: u64) -> (r: Result<Request, Error>)
    requires
        now < DATE_LIMIT,
    ensures
        posts(r, uri@, body, now),
{
    let host = match request_host(uri) {
        Ok(host) => host,
        Err(e) => {
            return Err(e);
        },
    };
    let digest = match generate_header(body.as_slice()) {
        Ok(digest) => digest,
        Err(_) => {
            return Err(Error::Digest);
        },
    };
    Ok(post_request(uri, host, http_date(now), digest, body))
}

/// The `POST` of a document to `uri`, ready to be signed. `body` is the document written
/// as JSON, or why it could not be written, which fails the request with `Json`.
pub fn send(uri: &str, body: Result<Vec<u8>, String>, now: u64) -> (r: Result<Request, Error>)
    requires
        now < DATE_LIMIT,
    ensures
        match body {
            Err(why) => r == Err::<Request, Error>(Error::Json(why)),
            Ok(bytes) => posts(r, uri@, bytes, now),
        },
{
    match body {
        Ok(bytes) => send_raw(uri, bytes, now),
        Err(why) => Err(Error::Json(why)),
    }
}

/// Whether the status of an answer is a success: 200 to 299.
pub fn is_success(status: u16) -> (r: bool)
    ensures
        r == (200 <= status < 300),
{
    200 <= status && status < 300
}

/// What an answer means for the request: done where its status is a success, else the
/// error `Response` with the text of the answer.
pub fn check_response(status: u16, text: String) -> (r: Result<(), Error>)
    ensures
        200 <= status < 300 ==> r is Ok,
        !(200 <= status < 300) ==> r == Err::<(), Error>(Error::Response(text)),
{
    if is_success(status) {
        Ok(())
    } else {
        Err(Error::Response(text))
    }
}

} // verus!
