use buzzrelay::actor::{Actor, ActorKind};
use buzzrelay::relay::{Post, Tag};

fn post(url: Option<&str>, tags: &[&str], language: Option<&str>) -> Post {
    Post {
        url: url.map(str::to_string),
        uri: "https://a.example/1".to_string(),
        tags: Some(tags.iter().map(|name| Tag { name: name.to_string() }).collect()),
        language: language.map(str::to_string),
    }
}

fn tag(name: &str) -> ActorKind {
    ActorKind::TagRelay(name.to_string())
}

fn instance(name: &str) -> ActorKind {
    ActorKind::InstanceRelay(name.to_string())
}

fn language(name: &str) -> ActorKind {
    ActorKind::LanguageRelay(name.to_string())
}

#[test]
fn targets_come_in_the_order_instance_tags_language() {
    let p = post(Some("https://A.Example/1"), &["Foo", "bar"], Some("en"));
    assert_eq!(p.relay_target_kinds(), vec![instance("a.example"), tag("foo"), tag("bar"), language("en")]);
}

#[test]
fn host_is_the_lowercase_domain() {
    assert_eq!(post(Some("https://A.Example/1"), &[], None).host(), Some("a.example".to_string()));
    assert_eq!(post(Some("https://127.0.0.1/1"), &[], None).host(), None);
    assert_eq!(post(Some("not a url"), &[], None).host(), None);
    assert_eq!(post(None, &[], None).host(), None);
}

#[test]
fn tags_are_the_names_in_order() {
    assert_eq!(post(None, &["b", "", "a"], None).tags(), vec!["b".to_string(), String::new(), "a".to_string()]);
    let none = Post { url: None, uri: String::new(), tags: None, language: None };
    assert_eq!(none.tags(), Vec::<String>::new());
}

#[test]
fn a_post_without_domain_has_no_instance_actor() {
    let p = post(Some("https://127.0.0.1/1"), &["foo"], None);
    assert_eq!(p.relay_target_kinds(), vec![tag("foo")]);
    let repost = post(None, &["foo"], Some("de"));
    assert_eq!(repost.relay_target_kinds(), vec![tag("foo"), language("de")]);
}

#[test]
fn a_date_is_stripped_from_letters_only() {
    assert_eq!(post(None, &["dd1302"], None).relay_target_kinds(), vec![tag("dd1302"), tag("dd")]);
    assert_eq!(post(None, &["Rust2024"], None).relay_target_kinds(), vec![tag("rust2024"), tag("rust")]);
    assert_eq!(post(None, &["a1"], None).relay_target_kinds(), vec![tag("a1"), tag("a")]);
    assert_eq!(post(None, &["東京2020"], None).relay_target_kinds().len(), 2);
}

#[test]
fn nothing_is_stripped_without_a_date_at_the_end() {
    assert_eq!(post(None, &["23"], None).relay_target_kinds(), vec![tag("23")]);
    assert_eq!(post(None, &["foo"], None).relay_target_kinds(), vec![tag("foo")]);
    assert_eq!(post(None, &["1a"], None).relay_target_kinds(), vec![tag("1a")]);
    assert_eq!(post(None, &["a1b"], None).relay_target_kinds(), vec![tag("a1b")]);
    assert_eq!(post(None, &["a1b2"], None).relay_target_kinds(), vec![tag("a1b2")]);
    assert_eq!(post(None, &["foo_bar12"], None).relay_target_kinds(), vec![tag("foo_bar12")]);
    assert_eq!(post(None, &["a\u{0663}"], None).relay_target_kinds().len(), 1);
}

#[test]
fn the_empty_tag_is_skipped() {
    assert_eq!(post(None, &[""], None).relay_target_kinds(), vec![]);
    assert_eq!(post(None, &["", "x", ""], None).relay_target_kinds(), vec![tag("x")]);
}

#[test]
fn duplicates_stay_in_the_sequence() {
    assert_eq!(post(None, &["Foo", "foo"], None).relay_target_kinds(), vec![tag("foo"), tag("foo")]);
    assert_eq!(post(None, &["dd1", "dd"], None).relay_target_kinds(), vec![tag("dd1"), tag("dd"), tag("dd")]);
}

#[test]
fn the_language_actor_needs_a_leading_letter() {
    assert_eq!(post(None, &[], Some("EN-us")).relay_target_kinds(), vec![language("en")]);
    assert_eq!(post(None, &[], Some("")).relay_target_kinds(), vec![]);
    assert_eq!(post(None, &[], Some("42")).relay_target_kinds(), vec![]);
}

#[test]
fn targets_are_the_kinds_on_the_host() {
    let p = post(Some("https://a.example/1"), &["dd1302"], Some("en"));
    let targets = p.relay_targets("relay.example");
    let kinds = p.relay_target_kinds();
    assert_eq!(targets.len(), 4);
    for (target, kind) in targets.iter().zip(kinds) {
        assert_eq!(target, &Actor { host: "relay.example".to_string(), kind });
    }
}

#[test]
fn derivation_is_pure() {
    let p = post(Some("https://a.example/1"), &["Foo", "dd1302", "", "スコティッシュ"], Some("en"));
    assert_eq!(p.relay_targets("relay.example"), p.relay_targets("relay.example"));
    assert_eq!(p.relay_target_kinds(), p.relay_target_kinds());
}

#[test]
fn kinds_follow_the_domain_that_was_read() {
    let p = post(Some("https://a.example/1"), &["dd1302"], Some("en"));
    assert_eq!(
        p.relay_target_kinds_from(Some("A.Example")),
        vec![instance("a.example"), tag("dd1302"), tag("dd"), language("en")]
    );
    assert_eq!(p.relay_target_kinds_from(None), vec![tag("dd1302"), tag("dd"), language("en")]);
    assert_eq!(p.domain(), Some("a.example".to_string()));
    assert_eq!(post(None, &[], None).domain(), None);
    let targets = p.relay_targets_from("relay.example", Some("a.example"));
    assert_eq!(targets, p.relay_targets("relay.example"));
}
