use buzzrelay::actor::{Actor, ActorKind};
use buzzrelay::fanout::{
    announce, announce_targets, announce_targets_from, distinct_targets, offer_inbox, plan_jobs,
    plan_read, published_at, relay_action, Audience, Inbox, Plan, Reading,
};
use buzzrelay::relay::{Location, Post, Tag};

fn post(url: Option<&str>, tags: &[&str], language: Option<&str>) -> Post {
    Post {
        url: url.map(str::to_string),
        uri: "https://a.example/1".to_string(),
        tags: Some(tags.iter().map(|name| Tag { name: name.to_string() }).collect()),
        language: language.map(str::to_string),
    }
}

fn inboxes(list: &[&str]) -> Vec<String> {
    list.iter().map(|s| s.to_string()).collect()
}

fn audiences(targets: Vec<Actor>, followers: Vec<Vec<String>>) -> Vec<Audience> {
    targets.into_iter().zip(followers).map(|(actor, inboxes)| Audience { actor, inboxes }).collect()
}

fn tag_actor(name: &str) -> Actor {
    Actor { host: "relay.example".to_string(), kind: ActorKind::TagRelay(name.to_string()) }
}

#[test]
fn tag_fan_out() {
    let p = post(Some("https://a.example/1"), &["Foo"], Some("en"));
    let targets = distinct_targets(&p.relay_targets("relay.example"));
    assert_eq!(targets.len(), 3);
    let followers = vec![inboxes(&[]), inboxes(&["https://b.example/inbox"]), inboxes(&["https://c.example/inbox"])];
    let plan = plan_jobs("https://a.example/1", &audiences(targets.clone(), followers));
    assert_eq!(plan.jobs.len(), 2);
    assert_eq!(plan.jobs[0].inbox_url, "https://b.example/inbox");
    assert_eq!(plan.jobs[0].host, "b.example");
    assert_eq!(plan.jobs[0].actor_id, "https://relay.example/tag/foo");
    assert_eq!(plan.jobs[0].key_id, "https://relay.example/tag/foo#key");
    assert_eq!(plan.jobs[0].post_url, "https://a.example/1");
    assert_eq!(plan.jobs[1].inbox_url, "https://c.example/inbox");
    assert_eq!(plan.jobs[1].host, "c.example");
    assert_eq!(plan.jobs[1].actor_id, "https://relay.example/language/en");
    let a = announce(&targets[1], "relay.example", "https://a.example/1", &p.uri, "2024-01-01T00:00:00Z");
    assert_eq!(a.object, "https://a.example/1");
    assert_eq!(a.actor, "https://relay.example/tag/foo");
    assert_eq!(relay_action(&p, &plan), "relay");
}

#[test]
fn no_self_relay() {
    let p = post(Some("https://a.example/1"), &["foo"], None);
    let targets = distinct_targets(&p.relay_targets("relay.example"));
    let followers = vec![inboxes(&["https://a.example/inbox"]), inboxes(&["https://A.example/users/x/inbox"])];
    let plan = plan_jobs("https://a.example/1", &audiences(targets, followers));
    assert_eq!(plan.jobs.len(), 0);
    assert_eq!(plan.seen_inboxes.len(), 2);
    assert_eq!(relay_action(&p, &plan), "relay");
}

#[test]
fn an_inbox_gets_one_job_per_post() {
    let targets = vec![tag_actor("a"), tag_actor("b")];
    let followers = vec![
        inboxes(&["https://b.example/inbox", "https://c.example/inbox", "https://b.example/inbox"]),
        inboxes(&["https://c.example/inbox", "https://d.example/inbox"]),
    ];
    let plan = plan_jobs("https://a.example/1", &audiences(targets, followers));
    let urls: Vec<&str> = plan.jobs.iter().map(|j| j.inbox_url.as_str()).collect();
    assert_eq!(urls, vec!["https://b.example/inbox", "https://c.example/inbox", "https://d.example/inbox"]);
    assert_eq!(plan.jobs[1].actor_id, "https://relay.example/tag/a");
    assert_eq!(plan.jobs[2].actor_id, "https://relay.example/tag/b");
    assert_eq!(plan.seen_inboxes, inboxes(&["https://b.example/inbox", "https://c.example/inbox", "https://d.example/inbox"]));
}

#[test]
fn inboxes_that_are_no_urls_are_passed_over() {
    let targets = vec![tag_actor("a")];
    let followers = vec![inboxes(&["not a url", "https://b.example/inbox", ""])];
    let plan = plan_jobs("https://a.example/1", &audiences(targets, followers));
    assert_eq!(plan.jobs.len(), 1);
    assert_eq!(plan.seen_inboxes, inboxes(&["https://b.example/inbox"]));
}

#[test]
fn a_post_whose_url_is_none_gets_no_jobs() {
    let targets = vec![tag_actor("a")];
    let followers = vec![inboxes(&["https://b.example/inbox"])];
    let plan = plan_jobs("not a url", &audiences(targets, followers));
    assert_eq!(plan.jobs.len(), 0);
    assert_eq!(plan.seen_inboxes.len(), 0);
}

#[test]
fn an_inbox_without_host_is_queued_under_the_empty_key() {
    let targets = vec![tag_actor("a")];
    let followers = vec![inboxes(&["mailto:x@b.example"])];
    let plan = plan_jobs("https://a.example/1", &audiences(targets, followers));
    assert_eq!(plan.jobs.len(), 1);
    assert_eq!(plan.jobs[0].host, "");
}

#[test]
fn posts_are_counted_by_what_became_of_them() {
    let repost = post(None, &["foo"], None);
    let empty = plan_jobs("", &vec![]);
    assert_eq!(relay_action(&repost, &empty), "skip");
    let p = post(Some("https://a.example/1"), &["foo"], None);
    assert_eq!(relay_action(&p, &empty), "no_relay");
}

#[test]
fn distinct_targets_keeps_the_first_of_each() {
    let targets = vec![tag_actor("a"), tag_actor("b"), tag_actor("a"), tag_actor("c"), tag_actor("b")];
    assert_eq!(distinct_targets(&targets), vec![tag_actor("a"), tag_actor("b"), tag_actor("c")]);
    assert_eq!(distinct_targets(&vec![]), vec![]);
}

#[test]
fn announce_has_the_fields_of_the_activity() {
    let a = announce(&tag_actor("foo"), "relay.example", "https://a.example/@u/1?x=y z", "https://a.example/users/u/1", "2024-05-06T07:08:09Z");
    assert_eq!(a.jsonld_context, "https://www.w3.org/ns/activitystreams");
    assert_eq!(a.announce_type, "Announce");
    assert_eq!(a.actor, "https://relay.example/tag/foo");
    assert_eq!(a.published, "2024-05-06T07:08:09Z");
    assert_eq!(a.to, vec!["https://www.w3.org/ns/activitystreams#Public".to_string()]);
    assert_eq!(a.object, "https://a.example/users/u/1");
    assert_eq!(a.id, "https://relay.example/announce/https%3A%2F%2Fa.example%2F%40u%2F1%3Fx%3Dy%20z");
}

#[test]
fn announce_id_encodes_utf8_bytes() {
    let a = announce(&tag_actor("foo"), "h", "\u{e9}~-._", "", "");
    assert_eq!(a.id, "https://h/announce/%C3%A9~-._");
}

#[test]
fn published_is_rfc3339_in_utc() {
    assert_eq!(published_at(0), Some("1970-01-01T00:00:00Z".to_string()));
    assert_eq!(published_at(86_399), Some("1970-01-01T23:59:59Z".to_string()));
    assert_eq!(published_at(951_782_400), Some("2000-02-29T00:00:00Z".to_string()));
    assert_eq!(published_at(i64::MAX), None);
}

#[test]
fn a_repost_is_announced_under_nothing() {
    let repost = post(None, &["foo"], Some("en"));
    assert_eq!(announce_targets(&repost, "relay.example"), vec![]);
    let p = post(Some("https://a.example/1"), &["Foo", "foo", "FOO"], Some("en"));
    let targets = announce_targets(&p, "relay.example");
    assert_eq!(targets.len(), 3);
    assert_eq!(targets[1], tag_actor("foo"));
}

#[test]
fn a_post_whose_url_is_no_url_is_announced_under_nothing() {
    let p = post(Some("not a url"), &["foo"], Some("en"));
    assert_eq!(announce_targets(&p, "relay.example"), vec![]);
    assert_eq!(announce_targets_from(&p, "relay.example", None), vec![]);
}

#[test]
fn targets_follow_what_was_read_of_the_url() {
    let p = post(Some("https://a.example/1"), &["Foo"], Some("en"));
    let read = Location { host: Some("a.example".to_string()), domain: Some("A.Example".to_string()) };
    let targets = announce_targets_from(&p, "relay.example", Some(read));
    let uris: Vec<String> = targets.iter().map(|t| t.uri()).collect();
    assert_eq!(
        uris,
        vec![
            "https://relay.example/instance/a.example".to_string(),
            "https://relay.example/tag/foo".to_string(),
            "https://relay.example/language/en".to_string(),
        ]
    );
    let address = Location { host: Some("127.0.0.1".to_string()), domain: None };
    assert_eq!(announce_targets_from(&p, "relay.example", Some(address)).len(), 2);
    let repost = post(None, &["foo"], None);
    let any = Location { host: None, domain: None };
    assert_eq!(announce_targets_from(&repost, "relay.example", Some(any)), vec![]);
}

#[test]
fn an_inbox_is_offered_with_the_host_that_was_read() {
    let mut plan = Plan { seen_inboxes: vec![], jobs: vec![] };
    let origin = Some("a.example".to_string());
    let actor = tag_actor("foo");
    let b = Some(Some("b.example".to_string()));
    offer_inbox(&mut plan, &origin, "https://a.example/1", &actor, "https://b.example/inbox", b.clone());
    assert_eq!(plan.jobs.len(), 1);
    assert_eq!(plan.jobs[0].host, "b.example");
    assert_eq!(plan.jobs[0].inbox_url, "https://b.example/inbox");
    assert_eq!(plan.jobs[0].actor_id, "https://relay.example/tag/foo");
    assert_eq!(plan.jobs[0].key_id, "https://relay.example/tag/foo#key");
    offer_inbox(&mut plan, &origin, "https://a.example/1", &actor, "https://b.example/inbox", b);
    assert_eq!(plan.jobs.len(), 1);
    let own = Some(Some("a.example".to_string()));
    offer_inbox(&mut plan, &origin, "https://a.example/1", &actor, "https://a.example/inbox", own);
    assert_eq!(plan.jobs.len(), 1);
    assert_eq!(plan.seen_inboxes.len(), 2);
    offer_inbox(&mut plan, &origin, "https://a.example/1", &actor, "nonsense", None);
    assert_eq!(plan.seen_inboxes.len(), 2);
    offer_inbox(&mut plan, &origin, "https://a.example/1", &actor, "mailto:x", Some(None));
    assert_eq!(plan.jobs.len(), 2);
    assert_eq!(plan.jobs[1].host, "");
}

fn read(url: &str, host: Option<Option<&str>>) -> Inbox {
    Inbox { url: url.to_string(), host: host.map(|h| h.map(str::to_string)) }
}

#[test]
fn a_plan_follows_what_was_read_of_the_inboxes() {
    let readings = vec![
        Reading { actor: tag_actor("instance"), inboxes: vec![] },
        Reading { actor: tag_actor("foo"), inboxes: vec![read("https://b.example/inbox", Some(Some("b.example")))] },
        Reading {
            actor: tag_actor("en"),
            inboxes: vec![
                read("https://c.example/inbox", Some(Some("c.example"))),
                read("https://b.example/inbox", Some(Some("b.example"))),
                read("https://a.example/inbox", Some(Some("a.example"))),
                read("nonsense", None),
            ],
        },
    ];
    let plan = plan_read("https://a.example/1", Some(Some("a.example".to_string())), &readings);
    let jobs: Vec<(&str, &str, &str)> = plan
        .jobs
        .iter()
        .map(|j| (j.inbox_url.as_str(), j.host.as_str(), j.actor_id.as_str()))
        .collect();
    assert_eq!(
        jobs,
        vec![
            ("https://b.example/inbox", "b.example", "https://relay.example/tag/foo"),
            ("https://c.example/inbox", "c.example", "https://relay.example/tag/en"),
        ]
    );
    assert_eq!(plan.seen_inboxes.len(), 3);
    let none = plan_read("nonsense", None, &readings);
    assert!(none.jobs.is_empty() && none.seen_inboxes.is_empty());
}

#[test]
fn a_plan_is_the_plan_of_what_the_urls_read_as() {
    let followers = vec![
        inboxes(&["https://b.example/inbox", "nonsense", "https://a.example/x"]),
        inboxes(&["https://c.example/inbox", "https://b.example/inbox"]),
    ];
    let planned = plan_jobs(
        "https://a.example/1",
        &audiences(vec![tag_actor("a"), tag_actor("b")], followers),
    );
    let readings = vec![
        Reading {
            actor: tag_actor("a"),
            inboxes: vec![
                read("https://b.example/inbox", Some(Some("b.example"))),
                read("nonsense", None),
                read("https://a.example/x", Some(Some("a.example"))),
            ],
        },
        Reading {
            actor: tag_actor("b"),
            inboxes: vec![
                read("https://c.example/inbox", Some(Some("c.example"))),
                read("https://b.example/inbox", Some(Some("b.example"))),
            ],
        },
    ];
    let read_plan = plan_read("https://a.example/1", Some(Some("a.example".to_string())), &readings);
    assert_eq!(planned.seen_inboxes, read_plan.seen_inboxes);
    assert_eq!(planned.jobs.len(), read_plan.jobs.len());
    for (x, y) in planned.jobs.iter().zip(read_plan.jobs.iter()) {
        assert_eq!((&x.inbox_url, &x.host, &x.actor_id, &x.key_id), (&y.inbox_url, &y.host, &y.actor_id, &y.key_id));
    }
}
