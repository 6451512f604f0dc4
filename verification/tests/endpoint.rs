use buzzrelay::digest::{generate_header, DigestCheck};
use buzzrelay::endpoint::{
    actor_verdict, check_headers, digest_verdict, is_json_content, DigestField, Endpoint,
};
use buzzrelay::error::Error;

const BODY: &[u8] = b"{\"type\":\"Follow\",\"actor\":\"https://b.example/users/x\"}";

fn signed() -> Vec<String> {
    ["(request-target)", "host", "date", "digest", "content-type"].iter().map(|s| s.to_string()).collect()
}

fn digest_of(body: &[u8]) -> DigestField {
    DigestField::Text(generate_header(body).unwrap())
}

fn rejection(r: Result<Endpoint, buzzrelay::error::Rejection>) -> (u16, String) {
    let e = r.unwrap_err();
    (e.status, e.message)
}

#[test]
fn json_content_types_are_taken() {
    assert!(is_json_content("application/json"));
    assert!(is_json_content("application/json; charset=utf-8"));
    assert!(is_json_content("application/activity+json"));
    assert!(is_json_content("application/ld+json; profile=\"https://www.w3.org/ns/activitystreams\""));
    assert!(is_json_content("application/json;"));
    assert!(is_json_content("application/+json"));
}

#[test]
fn other_content_types_are_not() {
    assert!(!is_json_content("text/plain"));
    assert!(!is_json_content("application/jsonp"));
    assert!(!is_json_content("application/jsonx; charset=utf-8"));
    assert!(!is_json_content("application/json+xml"));
    assert!(!is_json_content("Application/json"));
    assert!(!is_json_content("text/json"));
    assert!(!is_json_content("application/xml"));
    assert!(!is_json_content("application/activity+json ; charset=utf-8"));
    assert!(!is_json_content(" application/json"));
    assert!(!is_json_content(""));
    assert!(!is_json_content("; application/json"));
}

#[test]
fn a_good_request_is_admitted() {
    let s = signed();
    let e = Endpoint::from_request(Some("application/activity+json"), Some(&s), digest_of(BODY), Ok(BODY.to_vec())).unwrap();
    assert_eq!(e.remote_actor_uri, "https://b.example/users/x");
    assert_eq!(e.body, BODY);
}

#[test]
fn a_missing_content_type_is_unsupported() {
    let s = signed();
    let r = Endpoint::from_request(None, Some(&s), digest_of(BODY), Ok(BODY.to_vec()));
    assert_eq!(rejection(r), (415, "No content-type".to_string()));
}

#[test]
fn a_content_type_that_is_no_json_is_unsupported() {
    let s = signed();
    let r = Endpoint::from_request(Some("text/html"), Some(&s), digest_of(BODY), Ok(BODY.to_vec()));
    assert_eq!(rejection(r), (415, "Invalid content-type".to_string()));
}

#[test]
fn a_request_without_signed_headers_is_bad() {
    let r = Endpoint::from_request(Some("application/json"), None, digest_of(BODY), Ok(BODY.to_vec()));
    assert_eq!(rejection(r), (400, "No signed headers".to_string()));
}

#[test]
fn each_required_header_must_be_signed() {
    for (i, name) in ["(request-target)", "host", "date", "digest"].iter().enumerate() {
        let mut s = signed();
        s.remove(i);
        let r = Endpoint::from_request(Some("application/json"), Some(&s), digest_of(BODY), Ok(BODY.to_vec()));
        assert_eq!(rejection(r), (400, format!("Header {name:?} not signed")));
    }
    let r = check_headers(Some("application/json"), Some(&vec![]));
    assert_eq!(r.unwrap_err().message, "Header \"(request-target)\" not signed");
}

#[test]
fn the_digest_header_must_be_there_and_parse() {
    let s = signed();
    let r = Endpoint::from_request(Some("application/json"), Some(&s), DigestField::Missing, Ok(BODY.to_vec()));
    assert_eq!(rejection(r), (400, "Missing Digest: header".to_string()));
    let r = Endpoint::from_request(Some("application/json"), Some(&s), DigestField::Invalid, Ok(BODY.to_vec()));
    assert_eq!(rejection(r), (400, "Digest: header contained invalid characters".to_string()));
    let r = Endpoint::from_request(Some("application/json"), Some(&s), DigestField::Text("x".to_string()), Ok(BODY.to_vec()));
    assert_eq!(rejection(r), (400, "Cannot parse Digest: header: Badly formed digest".to_string()));
}

#[test]
fn a_body_that_could_not_be_read_is_bad() {
    let s = signed();
    let r = Endpoint::from_request(Some("application/json"), Some(&s), digest_of(BODY), Err("too long".to_string()));
    assert_eq!(rejection(r), (400, "Body: too long".to_string()));
    let r = Endpoint::from_request(Some("application/json"), Some(&s), DigestField::Text("x".to_string()), Err("too long".to_string()));
    assert_eq!(rejection(r), (400, "Cannot parse Digest: header: Badly formed digest".to_string()));
}

#[test]
fn a_digest_of_another_body_is_bad() {
    let s = signed();
    let r = Endpoint::from_request(Some("application/json"), Some(&s), digest_of(b"other"), Ok(BODY.to_vec()));
    assert_eq!(rejection(r), (400, "Digest didn't match".to_string()));
}

#[test]
fn a_body_that_is_no_json_is_bad() {
    let s = signed();
    let body = b"{not json";
    let r = Endpoint::from_request(Some("application/json"), Some(&s), digest_of(body), Ok(body.to_vec()));
    assert_eq!(rejection(r), (400, "Error parsing JSON".to_string()));
}

#[test]
fn a_body_without_actor_is_bad() {
    let s = signed();
    for body in [&b"{\"type\":\"Follow\"}"[..], b"{\"actor\":7}", b"[\"actor\"]", b"\"actor\""] {
        let r = Endpoint::from_request(Some("application/json"), Some(&s), digest_of(body), Ok(body.to_vec()));
        assert_eq!(rejection(r), (400, "Actor missing".to_string()));
    }
}

#[test]
fn the_content_type_is_checked_first() {
    let r = Endpoint::from_request(Some("text/html"), None, DigestField::Missing, Err(String::new()));
    assert_eq!(rejection(r).0, 415);
    let r = Endpoint::from_request(Some("application/json"), None, DigestField::Missing, Err(String::new()));
    assert_eq!(rejection(r).1, "No signed headers");
}

#[test]
fn verdicts_follow_the_checks() {
    assert!(digest_verdict(&DigestCheck::Verified(true)).is_ok());
    assert_eq!(digest_verdict(&DigestCheck::Verified(false)).unwrap_err().message, "Digest didn't match");
    assert_eq!(digest_verdict(&DigestCheck::Failed).unwrap_err().message, "Digest didn't match");
    let e = digest_verdict(&DigestCheck::Unparsable("why".to_string())).unwrap_err();
    assert_eq!((e.status, e.message), (400, "Cannot parse Digest: header: why".to_string()));
    assert_eq!(actor_verdict(Some(Some("a".to_string()))).unwrap(), "a");
    assert_eq!(actor_verdict(Some(None)).unwrap_err().message, "Actor missing");
    assert_eq!(actor_verdict(None).unwrap_err().message, "Error parsing JSON");
}

#[test]
fn the_sender_is_the_actor_whose_signature_is_good() {
    let e = Endpoint { body: vec![], remote_actor_uri: "https://b.example/users/x".to_string() };
    assert_eq!(e.remote_actor(7, Ok(true)).unwrap(), 7);
    match e.remote_actor(7, Ok(false)) {
        Err(Error::SignatureFail(uri)) => assert_eq!(uri, "https://b.example/users/x"),
        _ => panic!("expected a signature failure"),
    }
    match e.remote_actor(7, Err(Error::Signature("bad key".to_string()))) {
        Err(Error::Signature(m)) => assert_eq!(m, "bad key"),
        _ => panic!("expected the error of the check"),
    }
}

#[test]
fn a_type_that_only_begins_like_json_is_unsupported() {
    let s = signed();
    let r = Endpoint::from_request(Some("application/jsonx"), Some(&s), digest_of(BODY), Ok(BODY.to_vec()));
    assert_eq!(rejection(r), (415, "Invalid content-type".to_string()));
    let r = Endpoint::from_request(
        Some("application/activity+json; charset=utf-8"),
        Some(&s),
        digest_of(BODY),
        Ok(BODY.to_vec()),
    );
    assert!(r.is_ok());
}
