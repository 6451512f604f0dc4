use vstd::prelude::*;
use vstd::string::StringExecFns;
use crate::digest::{generate_header, sha256_header_of, wire_form};
use crate::error::Error;
use crate::send::{
    common_headers, header, header_is, host_of, http_date, http_date_of, request_host, Header,
    Request, DATE_LIMIT,
};

verus! {

/// Whether the request is the `GET` of `uri` with an empty body and the headers `host`,
/// `content-type`, `date`, `accept` and `digest`, in this order.
pub open spec fn is_fetch(
    request: Request,
    uri: Seq<char>,
    host: Seq<char>,
    date: Seq<char>,
    digest: Seq<char>,
) -> bool {
    &&& request.method@ == "GET"@
    &&& request.uri@ == uri
    &&& request.body@.len() == 0
    &&& request.headers@.len() == 5
    &&& common_headers(request.headers@, host, date)
    &&& header_is(request.headers@[3], "accept"@, "application/activity+json"@)
    &&& header_is(request.headers@[4], "digest"@, digest)
}

/// The `GET` of `uri` with an empty body and the headers `host`, `content-type`, `date`,
/// `accept` and `digest`, in this order.
pub fn fetch_request(uri: &str, host: String, date: String, digest: String) -> (r: Request)
    ensures
        is_fetch(r, uri@, host@, date@, digest@),
{
    let mut headers: Vec<Header> = Vec::new();
    headers.push(header("host", host));
    headers.push(header("content-type", String::from_str("application/activity+json")));
    headers.push(header("date", date));
    headers.push(header("accept", String::from_str("application/activity+json")));
    headers.push(header("digest", digest));
    Request { method: String::from_str("GET"), uri: String::from_str(uri), headers, body: Vec::new() }
}

/// The `GET` of the document at `uri` at the time `now`, in seconds after the epoch, ready
/// to be signed: with an empty body and the headers `host`, `content-type`, `date`,
/// `accept` and `digest`, in this order. It fails with `InvalidUri` where `uri` is no URL
/// with a host, else with `Digest` where the digest of the empty body cannot be made.
pub fn authorized_fetch(uri: &str, now: u64) -> (r: Result<Request, Error>)
    requires
        now < DATE_LIMIT,
    ensures
        host_of(uri@) is None ==> r matches Err(Error::InvalidUri),
        host_of(uri@) is Some ==> match r {
            Ok(request) => is_fetch(
                request,
                uri@,
                host_of(uri@)->0,
                http_date_of(now),
                wire_form(sha256_header_of(Seq::<u8>::empty())),
            ),
            Err(e) => e is Digest,
        },
{
    let host = match request_host(uri) {
        Ok(host) => host,
        Err(e) => {
            return Err(e);
        },
    };
    let body: Vec<u8> = Vec::new();
    assert(body@ =~= Seq::<u8>::empty());
    let digest = match generate_header(body.as_slice()) {
        Ok(digest) => digest,
        Err(_) => {
            return Err(Error::Digest);
        },
    };
    Ok(fetch_request(uri, host, http_date(now), digest))
}

} // verus!
