use buzzrelay::activitypub::Reference;
use buzzrelay::actor::{Actor, ActorKind};

fn tag(name: &str) -> ActorKind {
    ActorKind::TagRelay(name.to_string())
}

fn actor(kind: ActorKind) -> Actor {
    Actor { host: "relay.example".to_string(), kind }
}

#[test]
fn from_tag_folds_case_and_space() {
    assert_eq!(ActorKind::from_tag("Foo Bar"), tag("foobar"));
    assert_eq!(ActorKind::from_tag(" \tRust\n"), tag("rust"));
    assert_eq!(ActorKind::from_tag("caf\u{e9}"), tag("cafe"));
    assert_eq!(ActorKind::from_tag(""), tag(""));
}

#[test]
fn from_tag_is_idempotent() {
    for name in ["Foo Bar", "dd1302", "\u{c6}ther", "  a  b  ", "スコティッシュ"] {
        let once = ActorKind::from_tag(name);
        let twice = ActorKind::from_tag(once.payload());
        assert_eq!(once, twice);
    }
}

#[test]
fn from_language_takes_leading_letters() {
    assert_eq!(ActorKind::from_language("en"), Some(ActorKind::LanguageRelay("en".to_string())));
    assert_eq!(ActorKind::from_language("EN-us"), Some(ActorKind::LanguageRelay("en".to_string())));
    assert_eq!(ActorKind::from_language("pt_BR"), Some(ActorKind::LanguageRelay("pt".to_string())));
    assert_eq!(ActorKind::from_language("\u{c4}b1"), Some(ActorKind::LanguageRelay("\u{e4}b".to_string())));
}

#[test]
fn from_language_without_letters_is_none() {
    assert_eq!(ActorKind::from_language(""), None);
    assert_eq!(ActorKind::from_language("123"), None);
    assert_eq!(ActorKind::from_language("-en"), None);
}

#[test]
fn from_uri_reads_acct_resources() {
    assert_eq!(Actor::from_uri("acct:tag-Foo@relay.example"), Some(actor(tag("foo"))));
    assert_eq!(
        Actor::from_uri("acct:instance-Example.COM@relay.example"),
        Some(actor(ActorKind::InstanceRelay("example.com".to_string())))
    );
    assert_eq!(
        Actor::from_uri("acct:language-EN@relay.example"),
        Some(actor(ActorKind::LanguageRelay("en".to_string())))
    );
    assert_eq!(
        Actor::from_uri("acct:tag-a@b@c"),
        Some(Actor { host: "b@c".to_string(), kind: tag("a") })
    );
}

#[test]
fn from_uri_refuses_malformed_acct_resources() {
    assert_eq!(Actor::from_uri("acct:tag-foo"), None);
    assert_eq!(Actor::from_uri("acct:language-123@relay.example"), None);
    assert_eq!(Actor::from_uri("acct:user-foo@relay.example"), None);
    assert_eq!(Actor::from_uri(""), None);
}

#[test]
fn from_uri_reads_https_resources() {
    assert_eq!(Actor::from_uri("https://relay.example/tag/foo"), Some(actor(tag("foo"))));
    assert_eq!(Actor::from_uri("https://relay.example/tag/foo%20Bar"), Some(actor(tag("foobar"))));
    assert_eq!(
        Actor::from_uri("https://relay.example/instance/a.example"),
        Some(actor(ActorKind::InstanceRelay("a.example".to_string())))
    );
    assert_eq!(
        Actor::from_uri("https://relay.example/language/en"),
        Some(actor(ActorKind::LanguageRelay("en".to_string())))
    );
}

#[test]
fn from_uri_refuses_other_urls() {
    assert_eq!(Actor::from_uri("https://relay.example/tag"), None);
    assert_eq!(Actor::from_uri("https://relay.example/tag/foo/outbox"), None);
    assert_eq!(Actor::from_uri("https://relay.example/user/foo"), None);
    assert_eq!(Actor::from_uri("http://relay.example/tag/foo"), None);
    assert_eq!(Actor::from_uri("https://relay.example/tag/%ff"), None);
}

#[test]
fn from_object_reads_a_text_or_a_list_of_one() {
    let uri = "https://relay.example/tag/foo".to_string();
    assert_eq!(Actor::from_object(&Reference::Text(uri.clone())), Some(actor(tag("foo"))));
    assert_eq!(Actor::from_object(&Reference::List(vec![Some(uri.clone())])), Some(actor(tag("foo"))));
    assert_eq!(Actor::from_object(&Reference::List(vec![Some(uri.clone()), Some(uri)])), None);
    assert_eq!(Actor::from_object(&Reference::List(vec![None])), None);
    assert_eq!(Actor::from_object(&Reference::List(vec![])), None);
    assert_eq!(Actor::from_object(&Reference::Other), None);
}

#[test]
fn uris_are_made_of_host_kind_and_payload() {
    let a = actor(tag("foo"));
    assert_eq!(a.uri(), "https://relay.example/tag/foo");
    assert_eq!(a.key_id(), "https://relay.example/tag/foo#key");
    assert_eq!(a.preferred_username(), "tag-foo");
    let i = actor(ActorKind::InstanceRelay("a.example".to_string()));
    assert_eq!(i.uri(), "https://relay.example/instance/a.example");
    assert_eq!(i.preferred_username(), "instance-a.example");
    let l = actor(ActorKind::LanguageRelay("en".to_string()));
    assert_eq!(l.uri(), "https://relay.example/language/en");
    assert_eq!(l.key_id(), "https://relay.example/language/en#key");
    assert_eq!(l.preferred_username(), "language-en");
}

#[test]
fn uri_round_trips_through_from_uri() {
    for kind in [
        tag("foo"),
        ActorKind::InstanceRelay("a.example".to_string()),
        ActorKind::LanguageRelay("en".to_string()),
    ] {
        let a = actor(kind);
        assert_eq!(Actor::from_uri(&a.uri()), Some(a.clone()));
    }
}

#[test]
fn same_compares_host_kind_and_payload() {
    let a = actor(tag("foo"));
    assert!(a.same(&actor(tag("foo"))));
    assert!(!a.same(&actor(tag("bar"))));
    assert!(!a.same(&actor(ActorKind::InstanceRelay("foo".to_string()))));
    assert!(!a.same(&Actor { host: "other.example".to_string(), kind: tag("foo") }));
}

#[test]
fn actor_document_has_the_fields_that_peers_read() {
    let a = actor(tag("foo"));
    let doc = a.as_activitypub("PEM".to_string());
    assert_eq!(
        doc.jsonld_context,
        vec!["https://www.w3.org/ns/activitystreams".to_string(), "https://w3id.org/security/v1".to_string()]
    );
    assert_eq!(doc.actor_type, "Service");
    assert_eq!(doc.id, "https://relay.example/tag/foo");
    assert_eq!(doc.inbox, doc.id);
    assert_eq!(doc.name.as_deref(), Some("#foo"));
    assert_eq!(doc.outbox.as_deref(), Some("https://relay.example/tag/foo/outbox"));
    assert_eq!(doc.endpoints.unwrap().shared_inbox, "https://relay.example/instance/relay.example");
    assert_eq!(doc.public_key.id, "https://relay.example/tag/foo#key");
    assert_eq!(doc.public_key.owner.as_deref(), Some("https://relay.example/tag/foo"));
    assert_eq!(doc.public_key.pem, "PEM");
    assert_eq!(doc.preferred_username.as_deref(), Some("tag-foo"));
    let icon = doc.icon.unwrap();
    assert_eq!(icon.media_type.as_deref(), Some("Image"));
    assert_eq!(icon.content_type.as_deref(), Some("image/jpeg"));
    assert_eq!(icon.url, "https://fedi.buzz/assets/favicon48.png");
}

#[test]
fn actor_document_names_each_kind() {
    let i = actor(ActorKind::InstanceRelay("a.example".to_string())).as_activitypub(String::new());
    assert_eq!(i.name.as_deref(), Some("a.example"));
    assert_eq!(i.preferred_username.as_deref(), Some("instance-a.example"));
    let l = actor(ActorKind::LanguageRelay("en".to_string())).as_activitypub(String::new());
    assert_eq!(l.name.as_deref(), Some("in en"));
    assert_eq!(l.preferred_username.as_deref(), Some("language-en"));
}

#[test]
fn ascii_names_are_only_lowered_and_stripped() {
    for n in 0u8..128 {
        let c = n as char;
        let name = format!("a{c}b");
        let expected = if c.is_whitespace() {
            "ab".to_string()
        } else {
            format!("a{}b", c.to_ascii_lowercase())
        };
        assert_eq!(ActorKind::from_tag(&name), tag(&expected));
    }
}

#[test]
fn from_uri_keeps_payloads_in_their_form() {
    assert_eq!(Actor::from_uri("https://relay.example/tag/Foo"), Some(actor(tag("foo"))));
    assert_eq!(Actor::from_uri("https://relay.example/tag/caf%C3%A9"), Some(actor(tag("cafe"))));
    assert_eq!(
        Actor::from_uri("https://relay.example/instance/A.Example"),
        Some(actor(ActorKind::InstanceRelay("a.example".to_string())))
    );
    assert_eq!(
        Actor::from_uri("https://relay.example/language/EN-us"),
        Some(actor(ActorKind::LanguageRelay("en".to_string())))
    );
    assert_eq!(Actor::from_uri("https://relay.example/language/"), None);
    assert_eq!(Actor::from_uri("https://relay.example/language/42"), None);
    assert_eq!(Actor::from_uri("https://relay.example/tag/"), Some(actor(tag(""))));
}

#[test]
fn from_instance_lowers_the_name() {
    assert_eq!(ActorKind::from_instance("A.Example"), ActorKind::InstanceRelay("a.example".to_string()));
    assert_eq!(ActorKind::from_instance("a.example"), ActorKind::InstanceRelay("a.example".to_string()));
    assert_eq!(ActorKind::from_instance(""), ActorKind::InstanceRelay(String::new()));
}
