use vstd::prelude::*;
use crate::text::{chars_of, has_prefix, starts_with, string_of};

verus! {

/// The header that `http_digest_headers` writes for the SHA-256 digest of these bytes.
pub uninterp spec fn sha256_header_of(body: Seq<u8>) -> Seq<char>;

/// The message with which `http_digest_headers` refuses to parse this text as a digest
/// header, if it refuses it.
pub uninterp spec fn digest_parse_error(header: Seq<char>) -> Option<Seq<char>>;

/// Whether every digest that `http_digest_headers` parses from this header is the digest of
/// these bytes.
pub uninterp spec fn digest_matches(header: Seq<char>, body: Seq<u8>) -> bool;

/// A header in the form that `http_digest_headers` writes and reads: it begins with a
/// lowercase `sha-` and its base64 text is of the URL-safe alphabet.
pub open spec fn is_parser_form(h: Seq<char>) -> bool {
    &&& has_prefix(h, "sha-"@)
    &&& forall|i: int| 0 <= i < h.len() ==> #[trigger] h[i] != '+' && h[i] != '/'
}

/// A header in the form that goes over the wire: it begins with `SHA-`, the rest of its
/// label holds no `+` or `/`, and its base64 text is of the standard alphabet.
pub open spec fn is_wire_form(h: Seq<char>) -> bool {
    &&& has_prefix(h, "SHA-"@)
    &&& forall|i: int| 4 <= i < h.len() && i < 7 ==> #[trigger] h[i] != '+' && h[i] != '/'
    &&& forall|i: int| 7 <= i < h.len() ==> #[trigger] h[i] != '-' && h[i] != '_'
}

/// A character of the URL-safe base64 alphabet as the standard alphabet has it.
pub open spec fn to_standard(c: char) -> char {
    if c == '-' {
        '+'
    } else if c == '_' {
        '/'
    } else {
        c
    }
}

/// A character of the standard base64 alphabet as the URL-safe alphabet has it.
pub open spec fn to_url_safe(c: char) -> char {
    if c == '+' {
        '-'
    } else if c == '/' {
        '_'
    } else {
        c
    }
}

/// The header as it goes over the wire: a leading `sha-` in capitals, and from the eighth
/// character on the standard base64 alphabet in place of the URL-safe one.
pub open spec fn wire_form(h: Seq<char>) -> Seq<char> {
    Seq::new(
        h.len(),
        |i: int|
            if i < 4 && has_prefix(h, "sha-"@) {
                "SHA-"@[i]
            } else if i >= 7 {
                to_standard(h[i])
            } else {
                h[i]
            },
    )
}

/// The header as the parser takes it: a leading `SHA-` in lowercase, and the URL-safe base64
/// alphabet in place of the standard one throughout.
pub open spec fn parser_form(h: Seq<char>) -> Seq<char> {
    Seq::new(
        h.len(),
        |i: int|
            if i < 4 && has_prefix(h, "SHA-"@) {
                "sha-"@[i]
            } else {
                to_url_safe(h[i])
            },
    )
}

/// A header of the parser's form, put into wire form and back, is what it was; the wire
/// form of it is of the wire's form; and the parser's form of it is the header itself. So a
/// header reaches the parser as the same text in whichever of the two forms it came.
pub proof fn lemma_parser_form_round_trip(h: Seq<char>)
    requires
        is_parser_form(h),
    ensures
        parser_form(wire_form(h)) == h,
        is_wire_form(wire_form(h)),
        parser_form(h) == h,
{
    reveal_strlit("sha-");
    reveal_strlit("SHA-");
    assert forall|i: int| 0 <= i < h.len() implies parser_form(h)[i] == h[i] by {
        if i < 4 && has_prefix(h, "SHA-"@) {
            assert(h.take(4)[0] == h[0]);
        }
    }
    assert(parser_form(h) =~= h);
    let w = wire_form(h);
    assert(w.take(4) =~= "SHA-"@);
    assert forall|i: int| 0 <= i < h.len() implies parser_form(w)[i] == h[i] by {
        if i < 4 {
            assert(h.take(4)[i] == h[i]);
        }
    }
    assert(parser_form(w) =~= h);
}

/// A header of the wire's form, put into the parser's form and back, is what it was; and the
/// parser's form of it is of the parser's form.
pub proof fn lemma_wire_form_round_trip(h: Seq<char>)
    requires
        is_wire_form(h),
    ensures
        wire_form(parser_form(h)) == h,
        is_parser_form(parser_form(h)),
{
    reveal_strlit("sha-");
    reveal_strlit("SHA-");
    let p = parser_form(h);
    assert(p.take(4) =~= "sha-"@);
    assert forall|i: int| 0 <= i < h.len() implies wire_form(p)[i] == h[i] by {
        if i < 4 {
            assert(h.take(4)[i] == h[i]);
        }
    }
    assert(wire_form(p) =~= h);
}

/// `DigestHeader::new().with_method(DigestMethod::SHA256, body)`, written out: `sha-256=`
/// and the digest in URL-safe base64. The call fails where the hash function does. What
/// it writes is what the library reads: the header parses again, to the one digest that
/// was written, which is that of the body.
#[verifier::external_body]
pub(crate) fn sha256_header(body: &[u8]) -> (r: Result<String, ()>)
    ensures
        r matches Ok(h) ==> {
            &&& h@ == sha256_header_of(body@)
            &&& is_parser_form(h@)
            &&& digest_parse_error(h@) is None
            &&& digest_matches(h@, body@)
        },
{
    match http_digest_headers::DigestHeader::new().with_method(
        http_digest_headers::DigestMethod::SHA256,
        body,
    ) {
        Ok(h) => Ok(format!("{h}")),
        Err(_) => Err(()),
    }
}

/// How a digest header fared against a body.
pub enum DigestCheck {
    /// The header is no digest header; the parser's message.
    Unparsable(String),
    /// The digests could not be computed.
    Failed,
    /// The header parses; whether every digest of it is that of the body.
    Verified(bool),
}

/// `DigestHeader::from_str` and `DigestHeader::verify`: parses the header and compares each
/// of its digests with that of the body.
#[verifier::external_body]
pub(crate) fn check_digest(header: &str, body: &[u8]) -> (r: DigestCheck)
    ensures
        match r {
            DigestCheck::Unparsable(m) => digest_parse_error(header@) == Some(m@),
            DigestCheck::Failed => digest_parse_error(header@) is None,
            DigestCheck::Verified(good) => digest_parse_error(header@) is None && good
                == digest_matches(header@, body@),
        },
{
    match header.parse::<http_digest_headers::DigestHeader>() {
        Err(e) => DigestCheck::Unparsable(format!("{e}")),
        Ok(d) => match d.verify(body) {
            Ok(good) => DigestCheck::Verified(good),
            Err(_) => DigestCheck::Failed,
        },
    }
}

/// The header as it goes over the wire.
pub fn to_wire_form(header: &str) -> (r: String)
    ensures
        r@ == wire_form(header@),
{
    let v = chars_of(header);
    let upper = chars_of("SHA-");
    let labelled = starts_with(&v, "sha-");
    proof {
        reveal_strlit("SHA-");
    }
    let mut out: Vec<char> = Vec::new();
    let mut i: usize = 0;
    while i < v.len()
        invariant
            i <= v@.len(),
            v@ == header@,
            upper@ == "SHA-"@,
            upper@.len() == 4,
            labelled == has_prefix(v@, "sha-"@),
            out@.len() == i,
            forall|j: int| 0 <= j < i ==> out@[j] == wire_form(v@)[j],
        decreases v@.len() - i,
    {
        let c = v[i];
        if i < 4 && labelled {
            out.push(upper[i]);
        } else if i >= 7 && c == '-' {
            out.push('+');
        } else if i >= 7 && c == '_' {
            out.push('/');
        } else {
            out.push(c);
        }
        i += 1;
    }
    proof {
        assert(out@ =~= wire_form(v@));
        assert(out@.subrange(0, out@.len() as int) =~= out@);
    }
    string_of(&out, 0, out.len())
}

/// The header as the parser takes it.
pub fn to_parser_form(header: &str) -> (r: String)
    ensures
        r@ == parser_form(header@),
{
    let v = chars_of(header);
    let lower = chars_of("sha-");
    let labelled = starts_with(&v, "SHA-");
    proof {
        reveal_strlit("sha-");
    }
    let mut out: Vec<char> = Vec::new();
    let mut i: usize = 0;
    while i < v.len()
        invariant
            i <= v@.len(),
            v@ == header@,
            lower@ == "sha-"@,
            lower@.len() == 4,
            labelled == has_prefix(v@, "SHA-"@),
            out@.len() == i,
            forall|j: int| 0 <= j < i ==> out@[j] == parser_form(v@)[j],
        decreases v@.len() - i,
    {
        let c = v[i];
        if i < 4 && labelled {
            out.push(lower[i]);
        } else if c == '+' {
            out.push('-');
        } else if c == '/' {
            out.push('_');
        } else {
            out.push(c);
        }
        i += 1;
    }
    proof {
        assert(out@ =~= parser_form(v@));
        assert(out@.subrange(0, out@.len() as int) =~= out@);
    }
    string_of(&out, 0, out.len())
}

/// The `Digest` header of a body: its SHA-256 digest in wire form. Put back into the
/// parser's form it is the header that the digest was written as, which parses and matches
/// the body: the header of a body is never found to be that of another.
pub fn generate_header(body: &[u8]) -> (r: Result<String, ()>)
    ensures
        r matches Ok(h) ==> {
            &&& h@ == wire_form(sha256_header_of(body@))
            &&& is_wire_form(h@)
            &&& parser_form(h@) == sha256_header_of(body@)
            &&& digest_parse_error(parser_form(h@)) is None
            &&& digest_matches(parser_form(h@), body@)
        },
{
    let written = sha256_header(body);
    proof {
        if written is Ok {
            lemma_parser_form_round_trip(written->Ok_0@);
        }
    }
    wire_header(written)
}

/// Whether a `Digest` header as it came over the wire is that of the body.
pub fn verify_header(header: &str, body: &[u8]) -> (r: DigestCheck)
    ensures
        match r {
            DigestCheck::Unparsable(m) => digest_parse_error(parser_form(header@)) == Some(m@),
            DigestCheck::Failed => digest_parse_error(parser_form(header@)) is None,
            DigestCheck::Verified(good) => digest_parse_error(parser_form(header@)) is None && good
                == digest_matches(parser_form(header@), body@),
        },
{
    let fixed = to_parser_form(header);
    check_digest(fixed.as_str(), body)
}

/// What becomes of a digest as it was written, or could not be: a header that was written
/// goes out in wire form, and a failure stays a failure.
pub fn wire_header(written: Result<String, ()>) -> (r: Result<String, ()>)
    ensures
        match written {
            Ok(h) => r matches Ok(w) && w@ == wire_form(h@),
            Err(_) => r is Err,
        },
{
    match written {
        Ok(h) => Ok(to_wire_form(h.as_str())),
        Err(e) => Err(e),
    }
}

} // verus!
