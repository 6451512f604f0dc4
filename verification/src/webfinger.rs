use vstd::prelude::*;
use vstd::string::StringExecFns;
use crate::actor::{parse_actor, Actor};

verus! {

/// A link of a webfinger document.
#[derive(Debug)]
pub struct Link {
    pub rel: String,
    pub link_type: String,
    pub href: String,
}

/// The webfinger document of a topic actor.
#[derive(Debug)]
pub struct Webfinger {
    pub subject: String,
    pub aliases: Vec<String>,
    pub links: Vec<Link>,
}

/// The document that answers a webfinger query for `resource`: `None`, which is answered
/// with 404, where there is no resource or it names no topic actor. Else the subject is the
/// resource as it was asked for, and the actor's URI is the one alias and the target of the
/// one link, `self`.
pub fn webfinger(resource: Option<&str>) -> (r: Option<Webfinger>)
    ensures
        match resource {
            None => r is None,
            Some(res) => match parse_actor(res@) {
                None => r is None,
                Some(actor) => {
                    &&& r matches Some(doc)
                    &&& doc.subject@ == res@
                    &&& doc.aliases@.len() == 1
                    &&& doc.aliases@[0]@ == actor.uri()
                    &&& doc.links@.len() == 1
                    &&& doc.links@[0].rel@ == "self"@
                    &&& doc.links@[0].link_type@ == "application/activity+json"@
                    &&& doc.links@[0].href@ == actor.uri()
                },
            },
        },
{
    let resource = match resource {
        Some(resource) => resource,
        None => {
            return None;
        },
    };
    let target = match Actor::from_uri(resource) {
        Some(target) => target,
        None => {
            return None;
        },
    };
    let mut aliases: Vec<String> = Vec::new();
    aliases.push(target.uri());
    let mut links: Vec<Link> = Vec::new();
    links.push(
        Link {
            rel: String::from_str("self"),
            link_type: String::from_str("application/activity+json"),
            href: target.uri(),
        },
    );
    Some(Webfinger { subject: String::from_str(resource), aliases, links })
}

} // verus!
