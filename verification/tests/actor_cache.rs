use std::sync::Arc;

use buzzrelay::activitypub::{Actor, ActorPublicKey};
use buzzrelay::actor_cache::{ActorCache, Lookup, Resolved};
use buzzrelay::error::Error;

fn document(id: &str) -> Resolved {
    Ok(Arc::new(Actor {
        jsonld_context: vec![],
        actor_type: "Person".to_string(),
        id: id.to_string(),
        name: None,
        icon: None,
        inbox: format!("{id}/inbox"),
        outbox: None,
        endpoints: None,
        public_key: ActorPublicKey { id: format!("{id}#key"), owner: None, pem: String::new() },
        preferred_username: None,
    }))
}

fn id_of(r: &Resolved) -> String {
    match r {
        Ok(a) => a.id.clone(),
        Err(e) => format!("error: {}", e.message()),
    }
}

#[test]
fn single_flight() {
    let mut cache: ActorCache<u32> = ActorCache::new();
    let mut fetches = 0;
    for waiter in 0..10 {
        match cache.get("https://b.example/users/x", waiter) {
            Lookup::Fetch => fetches += 1,
            Lookup::Wait => {}
            Lookup::Hit(..) => panic!("nothing is cached yet"),
        }
    }
    assert_eq!(fetches, 1);
    let waiters = cache.complete("https://b.example/users/x", document("https://b.example/users/x"));
    assert_eq!(waiters, (0..10).collect::<Vec<u32>>());
    match cache.get("https://b.example/users/x", 10) {
        Lookup::Hit(r, waiter) => {
            assert_eq!(id_of(&r), "https://b.example/users/x");
            assert_eq!(waiter, 10);
        }
        _ => panic!("the result is cached"),
    }
    assert!(!cache.is_fetching("https://b.example/users/x"));
}

#[test]
fn keys_are_fetched_apart() {
    let mut cache: ActorCache<&str> = ActorCache::new();
    assert!(!cache.is_fetching("a"));
    assert!(matches!(cache.get("a", "a1"), Lookup::Fetch));
    assert!(cache.is_fetching("a"));
    assert!(!cache.is_fetching("b"));
    assert!(matches!(cache.get("b", "b1"), Lookup::Fetch));
    assert!(matches!(cache.get("a", "a2"), Lookup::Wait));
    assert!(matches!(cache.get("b", "b2"), Lookup::Wait));
    assert_eq!(cache.complete("b", document("b")), vec!["b1", "b2"]);
    assert!(matches!(cache.get("a", "a3"), Lookup::Wait));
    assert_eq!(cache.complete("a", document("a")), vec!["a1", "a2", "a3"]);
    assert!(matches!(cache.get("a", "a4"), Lookup::Hit(..)));
}

#[test]
fn errors_are_cached_like_documents() {
    let mut cache: ActorCache<u8> = ActorCache::new();
    assert!(matches!(cache.get("a", 0), Lookup::Fetch));
    cache.complete("a", Err(Error::Response("gone".to_string())));
    match cache.get("a", 1) {
        Lookup::Hit(Err(Error::Response(text)), 1) => assert_eq!(text, "gone"),
        _ => panic!("the error is cached"),
    }
}

#[test]
fn completing_what_nobody_waits_for_hands_back_nobody() {
    let mut cache: ActorCache<u8> = ActorCache::new();
    assert_eq!(cache.complete("a", document("a")), Vec::<u8>::new());
    assert!(matches!(cache.get("a", 0), Lookup::Hit(..)));
}

#[test]
fn the_cache_holds_sixty_four_results() {
    let mut cache: ActorCache<u8> = ActorCache::new();
    for i in 0..64 {
        cache.complete(&format!("k{i}"), document(&format!("k{i}")));
    }
    assert!(matches!(cache.get("k0", 0), Lookup::Hit(..)));
    cache.complete("k64", document("k64"));
    assert!(matches!(cache.get("k0", 0), Lookup::Hit(..)));
    assert!(matches!(cache.get("k64", 0), Lookup::Hit(..)));
    assert!(matches!(cache.get("k1", 0), Lookup::Fetch));
    assert!(matches!(cache.get("k2", 0), Lookup::Hit(..)));
}

#[test]
fn a_new_result_replaces_the_old() {
    let mut cache: ActorCache<u8> = ActorCache::new();
    cache.complete("a", Err(Error::InvalidUri));
    cache.complete("a", document("a"));
    match cache.get("a", 0) {
        Lookup::Hit(r, _) => assert_eq!(id_of(&r), "a"),
        _ => panic!("the result is cached"),
    }
}
