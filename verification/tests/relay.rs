use buzzrelay::actor::ActorKind;
use buzzrelay::relay::{Post, Tag};

fn post_with_tag(name: &str) -> Post {
    Post {
        url: Some("http://example.com/post/1".to_string()),
        uri: "http://example.com/post/1".to_string(),
        tags: Some(vec![Tag { name: name.to_string() }]),
        language: None,
    }
}

#[test]
fn post_relay_kind() {
    let post = post_with_tag("foo");
    let mut kinds = post.relay_target_kinds().into_iter();
    assert_eq!(kinds.next(), Some(ActorKind::InstanceRelay("example.com".to_string())));
    assert_eq!(kinds.next(), Some(ActorKind::TagRelay("foo".to_string())));
    assert_eq!(kinds.next(), None);
}

#[test]
fn post_relay_kind_empty() {
    let post = post_with_tag("");
    let mut kinds = post.relay_target_kinds().into_iter();
    assert_eq!(kinds.next(), Some(ActorKind::InstanceRelay("example.com".to_string())));
    assert_eq!(kinds.next(), None);
}

#[test]
fn post_relay_kind_numeric() {
    let post = post_with_tag("23");
    let mut kinds = post.relay_target_kinds().into_iter();
    assert_eq!(kinds.next(), Some(ActorKind::InstanceRelay("example.com".to_string())));
    assert_eq!(kinds.next(), Some(ActorKind::TagRelay("23".to_string())));
    assert_eq!(kinds.next(), None);
}

#[test]
fn post_relay_kind_date() {
    let post = post_with_tag("dd1302");
    let mut kinds = post.relay_target_kinds().into_iter();
    assert_eq!(kinds.next(), Some(ActorKind::InstanceRelay("example.com".to_string())));
    assert_eq!(kinds.next(), Some(ActorKind::TagRelay("dd1302".to_string())));
    assert_eq!(kinds.next(), Some(ActorKind::TagRelay("dd".to_string())));
    assert_eq!(kinds.next(), None);
}

#[test]
fn post_relay_kind_jp() {
    let post = post_with_tag("スコティッシュ・フォールド・ロングヘアー");
    let mut kinds = post.relay_target_kinds().into_iter();
    assert_eq!(kinds.next(), Some(ActorKind::InstanceRelay("example.com".to_string())));
    assert_eq!(kinds.next(), Some(ActorKind::TagRelay("sukoteitusiyuhuorudoronguhea".to_string())));
    assert_eq!(kinds.next(), None);
}
