use vstd::prelude::*;
use vstd::string::StringExecFns;
use crate::digest::{digest_matches, digest_parse_error, parser_form, verify_header, DigestCheck};
use crate::error::{refuse, reject, rejects, Error, Rejection};
use crate::text::{
    chars_of, contains_text, ends_with, find_from, has_prefix, has_suffix, position, same_text,
    starts_with, string_of, text_views,
};

verus! {

/// What `serde_json` reads as the member `name` of the document in these bytes: `None`
/// where they are no JSON, `Some(None)` where the document has no such member that is a
/// text.
pub uninterp spec fn json_member_of(body: Seq<u8>, name: Seq<char>) -> Option<Option<Seq<char>>>;

/// `serde_json::from_slice` and `Value::get`: the member `name` of the document, where it
/// is a text.
#[verifier::external_body]
pub(crate) fn json_member(body: &[u8], name: &str) -> (r: Option<Option<String>>)
    ensures
        match r {
            Some(Some(a)) => json_member_of(body@, name@) == Some(Some(a@)),
            Some(None) => json_member_of(body@, name@) == Some(None::<Seq<char>>),
            None => json_member_of(body@, name@) is None,
        },
{
    match serde_json::from_slice::<serde_json::Value>(body) {
        Ok(document) => Some(
            match document.get(name) {
                Some(serde_json::Value::String(a)) => Some(a.to_string()),
                _ => None,
            },
        ),
        Err(_) => None,
    }
}

/// What is read as the member `actor` of the document in these bytes, which names the
/// sender.
pub open spec fn json_actor_of(body: Seq<u8>) -> Option<Option<Seq<char>>> {
    json_member_of(body, "actor"@)
}

/// The `Digest` header of a request: absent, present but no text, or its text.
#[derive(Debug)]
pub enum DigestField {
    Missing,
    Invalid,
    Text(String),
}

/// A request that was admitted at an inbox: its body, whose digest was checked, and the
/// URI of the actor that it says it is from.
#[derive(Debug)]
pub struct Endpoint {
    pub body: Vec<u8>,
    pub remote_actor_uri: String,
}

/// The media type of a `Content-Type` header: what stands before the first `;`.
pub open spec fn media_type(content_type: Seq<char>) -> Seq<char> {
    content_type.take(position(content_type, ';'))
}

/// Whether the media type is `application/json` or `application/*+json`.
pub open spec fn is_json_type(t: Seq<char>) -> bool {
    t == "application/json"@ || (has_prefix(t, "application/"@) && has_suffix(t, "+json"@))
}

/// The first of `(request-target)`, `host`, `date` and `digest` that the signature does not
/// cover.
pub open spec fn unsigned_header(signed: Seq<Seq<char>>) -> Option<Seq<char>> {
    if !signed.contains("(request-target)"@) {
        Some("(request-target)"@)
    } else if !signed.contains("host"@) {
        Some("host"@)
    } else if !signed.contains("date"@) {
        Some("date"@)
    } else if !signed.contains("digest"@) {
        Some("digest"@)
    } else {
        None
    }
}

/// Why the headers of a request are turned away, if they are: 415 for a content type that
/// is absent or no JSON, 400 for a signature that is absent or leaves out a header.
pub open spec fn header_rejection(content_type: Option<Seq<char>>, signed: Option<Seq<Seq<char>>>) -> Option<
    (int, Seq<char>),
> {
    match content_type {
        None => Some((415, "No content-type"@)),
        Some(ct) => if !is_json_type(media_type(ct)) {
            Some((415, "Invalid content-type"@))
        } else {
            match signed {
                None => Some((400, "No signed headers"@)),
                Some(s) => match unsigned_header(s) {
                    Some(h) => Some((400, "Header \""@ + h + "\" not signed"@)),
                    None => None,
                },
            }
        },
    }
}

/// Why the `Digest` header of a request is turned away before its body is read, if it is.
pub open spec fn digest_rejection(digest: DigestField) -> Option<(int, Seq<char>)> {
    match digest {
        DigestField::Missing => Some((400, "Missing Digest: header"@)),
        DigestField::Invalid => Some((400, "Digest: header contained invalid characters"@)),
        DigestField::Text(h) => match digest_parse_error(parser_form(h@)) {
            Some(m) => Some((400, "Cannot parse Digest: header: "@ + m)),
            None => None,
        },
    }
}

/// The signed headers as plain values.
pub open spec fn signed_view(signed: Option<&Vec<String>>) -> Option<Seq<Seq<char>>> {
    match signed {
        Some(s) => Some(text_views(s@)),
        None => None,
    }
}

/// The content type as plain values.
pub open spec fn content_type_view(content_type: Option<&str>) -> Option<Seq<char>> {
    match content_type {
        Some(ct) => Some(ct@),
        None => None,
    }
}

/// Whether the media type of the header is `application/json` or `application/*+json`.
pub fn is_json_content(content_type: &str) -> (r: bool)
    ensures
        r == is_json_type(media_type(content_type@)),
{
    let v = chars_of(content_type);
    let end = find_from(&v, ';', 0);
    proof {
        assert(v@.skip(0) =~= v@);
    }
    let token = string_of(&v, 0, end);
    let t = chars_of(token.as_str());
    same_text(token.as_str(), "application/json") || (starts_with(&t, "application/") && ends_with(
        &t,
        "+json",
    ))
}

/// The rejection that says that `header` is not signed.
fn not_signed<T>(header: &str) -> (r: Result<T, Rejection>)
    ensures
        rejects(r, 400, "Header \""@ + header@ + "\" not signed"@),
{
    let mut message = String::from_str("Header \"");
    message.append(header);
    message.append("\" not signed");
    Err(Rejection { status: 400, message })
}

/// Checks the content type and the headers that the signature covers.
pub fn check_headers(content_type: Option<&str>, signed: Option<&Vec<String>>) -> (r: Result<(), Rejection>)
    ensures
        match header_rejection(content_type_view(content_type), signed_view(signed)) {
            Some((status, message)) => rejects(r, status, message),
            None => r is Ok,
        },
{
    let content_type = match content_type {
        Some(ct) => ct,
        None => {
            return refuse(415, "No content-type");
        },
    };
    if !is_json_content(content_type) {
        return refuse(415, "Invalid content-type");
    }
    let signed = match signed {
        Some(s) => s,
        None => {
            return refuse(400, "No signed headers");
        },
    };
    if !contains_text(signed, "(request-target)") {
        return not_signed("(request-target)");
    }
    if !contains_text(signed, "host") {
        return not_signed("host");
    }
    if !contains_text(signed, "date") {
        return not_signed("date");
    }
    if !contains_text(signed, "digest") {
        return not_signed("digest");
    }
    Ok(())
}

/// What a check of the digest means for the request: it goes on where the digest is that
/// of the body, and is turned away with 400 otherwise.
pub fn digest_verdict(check: &DigestCheck) -> (r: Result<(), Rejection>)
    ensures
        match *check {
            DigestCheck::Unparsable(m) => rejects(r, 400, "Cannot parse Digest: header: "@ + m@),
            DigestCheck::Failed => rejects(r, 400, "Digest didn't match"@),
            DigestCheck::Verified(false) => rejects(r, 400, "Digest didn't match"@),
            DigestCheck::Verified(true) => r is Ok,
        },
{
    match check {
        DigestCheck::Unparsable(m) => reject(400, "Cannot parse Digest: header: ", m.as_str()),
        DigestCheck::Failed => refuse(400, "Digest didn't match"),
        DigestCheck::Verified(false) => refuse(400, "Digest didn't match"),
        DigestCheck::Verified(true) => Ok(()),
    }
}

/// What the member `actor` of the body means for the request: it names the sender, or the
/// request is turned away with 400.
pub fn actor_verdict(actor: Option<Option<String>>) -> (r: Result<String, Rejection>)
    ensures
        match actor {
            None => rejects(r, 400, "Error parsing JSON"@),
            Some(None) => rejects(r, 400, "Actor missing"@),
            Some(Some(a)) => r matches Ok(uri) && uri == a,
        },
{
    match actor {
        None => refuse(400, "Error parsing JSON"),
        Some(None) => refuse(400, "Actor missing"),
        Some(Some(a)) => Ok(a),
    }
}

impl Endpoint {
    /// Admits a request or turns it away. In this order: the content type is JSON (415),
    /// the signature covers the headers it must, the `Digest` header is there and parses,
    /// the body could be read (`body` holds it, or why not), the digest is that of the
    /// body, the body is JSON, and it names its actor (400 each).
    pub fn from_request(
        content_type: Option<&str>,
        signed: Option<&Vec<String>>,
        digest: DigestField,
        body: Result<Vec<u8>, String>,
    ) -> (r: Result<Endpoint, Rejection>)
        ensures
            match header_rejection(content_type_view(content_type), signed_view(signed)) {
                Some((status, message)) => rejects(r, status, message),
                None => match digest_rejection(digest) {
                    Some((status, message)) => rejects(r, status, message),
                    None => match body {
                        Err(e) => rejects(r, 400, "Body: "@ + e@),
                        Ok(b) => {
                            let header = parser_form(digest->Text_0@);
                            &&& !digest_matches(header, b@) ==> rejects(r, 400, "Digest didn't match"@)
                            &&& match r {
                                Ok(endpoint) => {
                                    &&& digest_matches(header, b@)
                                    &&& endpoint.body == b
                                    &&& json_actor_of(b@) == Some(Some(endpoint.remote_actor_uri@))
                                },
                                Err(rejection) => {
                                    ||| rejection.says(400, "Digest didn't match"@)
                                    ||| digest_matches(header, b@) && json_actor_of(b@) is None
                                        && rejection.says(400, "Error parsing JSON"@)
                                    ||| digest_matches(header, b@) && json_actor_of(b@) == Some(
                                        None::<Seq<char>>,
                                    ) && rejection.says(400, "Actor missing"@)
                                },
                            }
                        },
                    },
                },
            },
    {
        match check_headers(content_type, signed) {
            Err(rejection) => {
                return Err(rejection);
            },
            Ok(()) => {},
        }
        let header = match digest {
            DigestField::Missing => {
                return refuse(400, "Missing Digest: header");
            },
            DigestField::Invalid => {
                return refuse(400, "Digest: header contained invalid characters");
            },
            DigestField::Text(h) => h,
        };
        match body {
            Err(e) => {
                let empty: Vec<u8> = Vec::new();
                match verify_header(header.as_str(), empty.as_slice()) {
                    DigestCheck::Unparsable(m) => reject(400, "Cannot parse Digest: header: ", m.as_str()),
                    _ => reject(400, "Body: ", e.as_str()),
                }
            },
            Ok(b) => {
                let check = verify_header(header.as_str(), b.as_slice());
                match digest_verdict(&check) {
                    Err(rejection) => {
                        return Err(rejection);
                    },
                    Ok(()) => {},
                }
                match actor_verdict(json_member(b.as_slice(), "actor")) {
                    Err(rejection) => Err(rejection),
                    Ok(remote_actor_uri) => Ok(Endpoint { body: b, remote_actor_uri }),
                }
            },
        }
    }

    /// The sender of the request, once its actor was resolved and the signature of the
    /// request checked against the actor's key: the actor where the signature is good, the
    /// error of the check where it could not be made, and `SignatureFail` with the actor's
    /// URI where the signature is not the actor's.
    pub fn remote_actor<A>(&self, actor: A, verified: Result<bool, Error>) -> (r: Result<A, Error>)
        ensures
            match verified {
                Ok(true) => r == Ok::<A, Error>(actor),
                Ok(false) => r matches Err(Error::SignatureFail(uri)) && uri@ == self.remote_actor_uri@,
                Err(e) => r == Err::<A, Error>(e),
            },
    {
        match verified {
            Ok(true) => Ok(actor),
            Ok(false) => Err(Error::SignatureFail(self.remote_actor_uri.clone())),
            Err(e) => Err(e),
        }
    }
}

} // verus!
