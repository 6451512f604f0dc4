use buzzrelay::digest::{
    generate_header, to_parser_form, to_wire_form, verify_header, wire_header, DigestCheck,
};

const EMPTY: &str = "SHA-256=47DEQpj8HBSa+/TImW+5JCeuQeRkm5NMpJWZG3hSuFU=";

#[test]
fn digest_of_the_empty_body() {
    assert_eq!(generate_header(b""), Ok(EMPTY.to_string()));
}

#[test]
fn digest_of_a_body() {
    assert_eq!(
        generate_header(b"this is some data"),
        Ok("SHA-256=3/kAh+KpXxwJPPQOe+bvTpmOIbTqONC0lOov2yV2/P4=".to_string())
    );
}

#[test]
fn wire_form_has_capitals_and_the_standard_alphabet() {
    assert_eq!(to_wire_form("sha-256=a-b_c+d/e="), "SHA-256=a+b/c+d/e=");
    assert_eq!(to_wire_form("sha-512=-_"), "SHA-512=+/");
    assert_eq!(to_wire_form("md5-x-y=-_"), "md5-x-y=+/");
    assert_eq!(to_wire_form("sha-"), "SHA-");
    assert_eq!(to_wire_form("sha"), "sha");
    assert_eq!(to_wire_form(""), "");
}

#[test]
fn parser_form_has_lowercase_and_the_url_safe_alphabet() {
    assert_eq!(to_parser_form("SHA-256=a+b/c-d_e="), "sha-256=a-b_c-d_e=");
    assert_eq!(to_parser_form("sha-256=+/"), "sha-256=-_");
    assert_eq!(to_parser_form("MD5=+/"), "MD5=-_");
    assert_eq!(to_parser_form(""), "");
}

#[test]
fn the_two_forms_invert_each_other() {
    for body in [&b""[..], b"a", b"this is some data", &[0u8, 255, 17, 3][..]] {
        let wire = generate_header(body).unwrap();
        let parser = to_parser_form(&wire);
        assert!(parser.starts_with("sha-256="));
        assert!(!parser.contains('+') && !parser.contains('/'));
        assert_eq!(to_wire_form(&parser), wire);
    }
}

#[test]
fn a_digest_verifies_against_its_body() {
    for body in [&b""[..], b"{\"actor\":\"x\"}", &[0u8, 255, 17, 3][..]] {
        let header = generate_header(body).unwrap();
        assert!(matches!(verify_header(&header, body), DigestCheck::Verified(true)));
    }
}

#[test]
fn one_flipped_bit_fails_the_digest() {
    let body = b"{\"actor\":\"https://b.example/users/x\"}".to_vec();
    let header = generate_header(&body).unwrap();
    for i in 0..body.len() {
        for bit in 0..8 {
            let mut flipped = body.clone();
            flipped[i] ^= 1 << bit;
            assert!(matches!(verify_header(&header, &flipped), DigestCheck::Verified(false)));
        }
    }
}

#[test]
fn a_header_that_is_no_digest_does_not_parse() {
    assert!(matches!(verify_header("nonsense", b""), DigestCheck::Unparsable(_)));
    assert!(matches!(verify_header("SHA-1=abcd", b""), DigestCheck::Unparsable(_)));
    assert!(matches!(verify_header("SHA-256=***", b""), DigestCheck::Unparsable(_)));
    match verify_header("nonsense", b"") {
        DigestCheck::Unparsable(m) => assert_eq!(m, "Badly formed digest"),
        _ => unreachable!(),
    }
}

#[test]
fn a_header_in_the_parser_form_verifies_too() {
    assert!(matches!(
        verify_header("sha-256=47DEQpj8HBSa-_TImW-5JCeuQeRkm5NMpJWZG3hSuFU=", b""),
        DigestCheck::Verified(true)
    ));
    assert!(matches!(verify_header(EMPTY, b"x"), DigestCheck::Verified(false)));
}

#[test]
fn a_written_digest_goes_out_in_wire_form() {
    assert_eq!(
        wire_header(Ok("sha-256=47DEQpj8HBSa-_TImW-5JCeuQeRkm5NMpJWZG3hSuFU=".to_string())),
        Ok(EMPTY.to_string())
    );
    assert_eq!(wire_header(Ok(String::new())), Ok(String::new()));
    assert_eq!(wire_header(Err(())), Err(()));
}

#[test]
fn a_header_reaches_the_parser_the_same_in_both_forms() {
    let parser = "sha-256=47DEQpj8HBSa-_TImW-5JCeuQeRkm5NMpJWZG3hSuFU=";
    assert_eq!(to_parser_form(parser), parser);
    assert_eq!(to_parser_form(&to_wire_form(parser)), parser);
    for body in [&b""[..], b"x"] {
        let a = matches!(verify_header(parser, body), DigestCheck::Verified(true));
        let b = matches!(verify_header(&to_wire_form(parser), body), DigestCheck::Verified(true));
        assert_eq!(a, b);
    }
}
