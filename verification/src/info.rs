use vstd::prelude::*;
use vstd::string::StringExecFns;

verus! {

/// What the relay says of itself in its node information document.
#[derive(Debug)]
pub struct NodeInfo {
    pub version: String,
    pub protocols: Vec<String>,
    pub open_registrations: bool,
    pub users_total: i64,
    pub users_active_halfyear: i64,
    pub users_active_month: i64,
    pub local_posts: i64,
    pub local_comments: i64,
    pub link_rel: String,
    pub link_href: String,
}

/// The empty collection that stands for the outbox of each actor.
#[derive(Debug)]
pub struct Outbox {
    pub jsonld_context: String,
    pub summary: String,
    pub collection_type: String,
    pub total_items: u64,
}

/// `https://{host}/.well-known/nodeinfo`
pub open spec fn nodeinfo_href(hostname: Seq<char>) -> Seq<char> {
    "https://"@ + hostname + "/.well-known/nodeinfo"@
}

/// A count that the store gave, or 0 where it gave none.
pub open spec fn count_or_zero(count: Option<i64>) -> i64 {
    match count {
        Some(n) => n,
        None => 0,
    }
}

/// The node information of the relay on `hostname`. The follows stand for the local posts
/// and the followers for the users of the last half year; a count that the store could
/// not give is 0.
pub fn nodeinfo(hostname: &str, follows: Option<i64>, followers: Option<i64>) -> (r: NodeInfo)
    ensures
        r.version@ == "2.1"@,
        r.protocols@.len() == 1,
        r.protocols@[0]@ == "activitypub"@,
        !r.open_registrations,
        r.users_total == 0,
        r.users_active_halfyear == count_or_zero(followers),
        r.users_active_month == 0,
        r.local_posts == count_or_zero(follows),
        r.local_comments == 0,
        r.link_rel@ == "http://nodeinfo.diaspora.software/ns/schema/2.1"@,
        r.link_href@ == nodeinfo_href(hostname@),
{
    let mut href = String::from_str("https://");
    href.append(hostname);
    href.append("/.well-known/nodeinfo");
    let mut protocols: Vec<String> = Vec::new();
    protocols.push(String::from_str("activitypub"));
    NodeInfo {
        version: String::from_str("2.1"),
        protocols,
        open_registrations: false,
        users_total: 0,
        users_active_halfyear: match followers {
            Some(n) => n,
            None => 0,
        },
        users_active_month: 0,
        local_posts: match follows {
            Some(n) => n,
            None => 0,
        },
        local_comments: 0,
        link_rel: String::from_str("http://nodeinfo.diaspora.software/ns/schema/2.1"),
        link_href: href,
    }
}

/// The outbox of each actor: an ordered collection without items.
pub fn outbox() -> (r: Outbox)
    ensures
        r.jsonld_context@ == "https://www.w3.org/ns/activitystreams"@,
        r.summary@ == "buzzrelay stub outbox"@,
        r.collection_type@ == "OrderedCollection"@,
        r.total_items == 0,
{
    Outbox {
        jsonld_context: String::from_str("https://www.w3.org/ns/activitystreams"),
        summary: String::from_str("buzzrelay stub outbox"),
        collection_type: String::from_str("OrderedCollection"),
        total_items: 0,
    }
}

} // verus!
