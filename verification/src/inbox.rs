use vstd::prelude::*;
use vstd::string::StringExecFns;
use vstd::utf8::encode_utf8;
use crate::activitypub::{Action, Activity, ActivityObject, Reference};
use crate::actor::{actor_of_reference, percent_encode, url_encode, Actor, ActorView};
use crate::error::{Error, Rejection};
use crate::text::same_text;

verus! {

/// The answer to a request that was taken.
#[derive(Debug)]
pub struct Reply {
    pub status: u16,
    pub content_type: String,
    pub body: String,
}

/// What the relay does about an activity that came in, signed, at the inbox of a topic
/// actor.
#[derive(Debug)]
pub enum Reaction {
    /// The request is turned away.
    Refuse(Rejection),
    /// The follower is sent an `Accept` for `target` and, once that is delivered, recorded
    /// as following it. The request is accepted at once.
    Follow { target: Actor, follower_id: String, follower_inbox: String },
    /// The follower's record for `target` is deleted.
    Unfollow { target: Actor, follower_id: String },
    /// The activity is acknowledged and nothing is done.
    Ignore,
}

/// Whether the activity is a `Follow`.
pub open spec fn is_follow(activity: Activity) -> bool {
    activity.action_type@ == "Follow"@
}

/// Whether the activity is an `Undo` of a `Follow`.
pub open spec fn is_undo_follow(activity: Activity) -> bool {
    &&& activity.action_type@ == "Undo"@
    &&& activity.object matches Some(ActivityObject::Nested { object_type: Some(t), .. })
    &&& t@ == "Follow"@
}

/// The actor of this host that the reference names.
pub open spec fn local_actor(hostname: Seq<char>, object: Option<Reference>) -> Option<ActorView> {
    match object {
        Some(r) => match actor_of_reference(r@) {
            Some(a) => if a.host == hostname {
                Some(a)
            } else {
                None
            },
            None => None,
        },
        None => None,
    }
}

/// The actor that a `Follow` is for: the actor of this host that its object names, else the
/// actor at whose inbox it came in.
pub open spec fn follow_target(hostname: Seq<char>, addressed: ActorView, activity: Activity) -> ActorView {
    match activity.object {
        Some(ActivityObject::Plain(r)) => match local_actor(hostname, Some(r)) {
            Some(a) => a,
            None => addressed,
        },
        _ => addressed,
    }
}

/// The actor that the undone `Follow` was for: the actor of this host that its object
/// names. An `Undo` that names none is turned away.
pub open spec fn undo_target(hostname: Seq<char>, activity: Activity) -> Option<ActorView> {
    match activity.object {
        Some(ActivityObject::Nested { object, .. }) => local_actor(hostname, object),
        _ => None,
    }
}

/// `https://{host}/activity/accept/{target}/{inbox}`, the last two percent-encoded.
pub open spec fn accept_id(hostname: Seq<char>, target_uri: Seq<char>, inbox: Seq<char>) -> Seq<char> {
    "https://"@ + hostname + "/activity/accept/"@ + percent_encode(encode_utf8(target_uri)) + "/"@
        + percent_encode(encode_utf8(inbox))
}

/// The actor of this host that the reference names.
fn find_local(hostname: &str, reference: &Reference) -> (r: Option<Actor>)
    ensures
        match r {
            Some(a) => local_actor(hostname@, Some(*reference)) == Some(a@) && a@.kind.is_topic(),
            None => local_actor(hostname@, Some(*reference)) is None,
        },
{
    match Actor::from_object(reference) {
        Some(a) => if same_text(a.host.as_str(), hostname) {
            Some(a)
        } else {
            None
        },
        None => None,
    }
}

/// The actor of this host that the reference names, where there is a reference.
fn find_local_actor(hostname: &str, object: &Option<Reference>) -> (r: Option<Actor>)
    ensures
        match r {
            Some(a) => local_actor(hostname@, *object) == Some(a@) && a@.kind.is_topic(),
            None => local_actor(hostname@, *object) is None,
        },
{
    match object {
        Some(reference) => find_local(hostname, reference),
        None => None,
    }
}

/// Whether the activity is an `Undo` of a `Follow`.
fn undoes_follow(activity: &Activity) -> (r: bool)
    ensures
        r == is_undo_follow(*activity),
{
    if !same_text(activity.action_type.as_str(), "Undo") {
        return false;
    }
    match &activity.object {
        Some(ActivityObject::Nested { object_type: Some(t), .. }) => same_text(t.as_str(), "Follow"),
        _ => false,
    }
}

/// The answer that takes a request: 202 with an empty document.
pub fn accepted() -> (r: Reply)
    ensures
        r.status == 202,
        r.content_type@ == "application/activity+json"@,
        r.body@ == "{}"@,
{
    Reply {
        status: 202,
        content_type: String::from_str("application/activity+json"),
        body: String::from_str("{}"),
    }
}

/// The request whose body is no activity is turned away with 400.
pub fn bad_action(detail: &str) -> (r: Rejection)
    ensures
        r.status == 400,
        r.message@ == "Bad action: "@ + detail@,
{
    let mut message = String::from_str("Bad action: ");
    message.append(detail);
    Rejection { status: 400, message }
}

/// The status with which a request is turned away whose sender could not be confirmed: 400
/// where the signature is at fault, 502 where the sender's actor could not be resolved.
pub open spec fn sender_status(error: Error) -> int {
    match error {
        Error::Signature(_) => 400,
        Error::SignatureFail(_) => 400,
        _ => 502,
    }
}

/// The text with which a request is turned away whose sender could not be confirmed.
pub open spec fn sender_message(error: Error) -> Seq<char> {
    match error {
        Error::Signature(_) => "Invalid signature"@,
        Error::SignatureFail(_) => "Invalid signature"@,
        _ => "Invalid actor"@,
    }
}

/// Why a request is turned away whose sender could not be confirmed.
pub fn sender_rejection(error: &Error) -> (r: Rejection)
    ensures
        r.says(sender_status(*error), sender_message(*error)),
{
    match error {
        Error::Signature(_) => Rejection { status: 400, message: String::from_str("Invalid signature") },
        Error::SignatureFail(_) => Rejection {
            status: 400,
            message: String::from_str("Invalid signature"),
        },
        _ => Rejection { status: 502, message: String::from_str("Invalid actor") },
    }
}

/// What is done about `activity`, which came in at the inbox of `addressed`. `follower` is
/// the sender as its actor was resolved and its signature checked, with its id and its
/// inbox, or why it could not be confirmed.
///
/// A `Follow` and an `Undo` of a `Follow` from a sender that could not be confirmed are
/// turned away, with 400 for a signature and 502 for an actor that could not be resolved;
/// an `Undo` that names no actor of this host, with 400. Any other activity is acknowledged
/// whoever sent it.
pub fn react(
    hostname: &str,
    addressed: Actor,
    activity: &Activity,
    follower: Result<(String, String), Error>,
) -> (r: Reaction)
    ensures
        match r {
            Reaction::Refuse(rejection) => (is_follow(*activity) || is_undo_follow(*activity)) && (
            match follower {
                Err(e) => rejection.says(sender_status(e), sender_message(e)),
                Ok(_) => !is_follow(*activity) && undo_target(hostname@, *activity) is None
                    && rejection.says(400, "Unknown follow"@),
            }),
            Reaction::Follow { target, follower_id, follower_inbox } => {
                &&& is_follow(*activity)
                &&& follower matches Ok(f)
                &&& follower_id == f.0
                &&& follower_inbox == f.1
                &&& target@ == follow_target(hostname@, addressed@, *activity)
            },
            Reaction::Unfollow { target, follower_id } => {
                &&& !is_follow(*activity)
                &&& is_undo_follow(*activity)
                &&& follower matches Ok(f)
                &&& follower_id == f.0
                &&& undo_target(hostname@, *activity) == Some(target@)
                &&& target@.kind.is_topic()
            },
            Reaction::Ignore => !is_follow(*activity) && !is_undo_follow(*activity),
        },
{
    if same_text(activity.action_type.as_str(), "Follow") {
        let (follower_id, follower_inbox) = match follower {
            Ok(f) => f,
            Err(e) => {
                return Reaction::Refuse(sender_rejection(&e));
            },
        };
        let named = match &activity.object {
            Some(ActivityObject::Plain(reference)) => find_local(hostname, reference),
            _ => None,
        };
        let target = match named {
            Some(a) => a,
            None => addressed,
        };
        Reaction::Follow { target, follower_id, follower_inbox }
    } else if undoes_follow(activity) {
        let (follower_id, _) = match follower {
            Ok(f) => f,
            Err(e) => {
                return Reaction::Refuse(sender_rejection(&e));
            },
        };
        let named = match &activity.object {
            Some(ActivityObject::Nested { object, .. }) => find_local_actor(hostname, object),
            _ => None,
        };
        match named {
            Some(target) => Reaction::Unfollow { target, follower_id },
            None => Reaction::Refuse(
                Rejection { status: 400, message: String::from_str("Unknown follow") },
            ),
        }
    } else {
        Reaction::Ignore
    }
}

/// A follow as the store records it: the follower's id and inbox, and the URI of the actor
/// that is followed.
#[derive(Debug)]
pub struct Follow {
    pub id: String,
    pub inbox: String,
    pub actor: String,
}

/// What is recorded once the `Accept` of a `Follow` was sent: the follow, if and only if
/// the `Accept` was delivered.
pub fn follow_to_record(target: &Actor, follower_id: &str, follower_inbox: &str, delivered: bool) -> (r:
    Option<Follow>)
    ensures
        delivered ==> r is Some && r->0.id@ == follower_id@ && r->0.inbox@ == follower_inbox@
            && r->0.actor@ == target@.uri(),
        !delivered ==> r is None,
{
    if delivered {
        Some(
            Follow {
                id: String::from_str(follower_id),
                inbox: String::from_str(follower_inbox),
                actor: target.uri(),
            },
        )
    } else {
        None
    }
}

/// The `Accept` that answers a `Follow` of `target` by the actor `follower_id`, whose inbox
/// is `follower_inbox`; `payload` is the `Follow` as it came in.
pub fn accept<O>(hostname: &str, target: &Actor, follower_id: &str, follower_inbox: &str, payload: O) -> (r:
    Action<O>)
    ensures
        r.jsonld_context@ == "https://www.w3.org/ns/activitystreams"@,
        r.action_type@ == "Accept"@,
        r.id@ == accept_id(hostname@, target@.uri(), follower_inbox@),
        r.actor@ == target@.uri(),
        r.to matches Some(to) && to@ == follower_id@,
        r.object == Some(payload),
{
    let uri = target.uri();
    let mut id = String::from_str("https://");
    id.append(hostname);
    id.append("/activity/accept/");
    id.append(url_encode(uri.as_str()).as_str());
    id.append("/");
    id.append(url_encode(follower_inbox).as_str());
    Action {
        jsonld_context: String::from_str("https://www.w3.org/ns/activitystreams"),
        action_type: String::from_str("Accept"),
        id,
        actor: uri,
        to: Some(String::from_str(follower_id)),
        object: Some(payload),
    }
}

/// The answer to an `Undo` once the record was deleted, or could not be: 202, or 500 with
/// the store's message.
pub fn unfollow_reply(store_error: Option<&str>) -> (r: Result<Reply, Rejection>)
    ensures
        match store_error {
            None => r matches Ok(reply) && reply.status == 202 && reply.content_type@
                == "application/activity+json"@ && reply.body@ == "{}"@,
            Some(e) => r matches Err(rejection) && rejection.status == 500 && rejection.message@ == e@,
        },
{
    match store_error {
        None => Ok(accepted()),
        Some(e) => Err(Rejection { status: 500, message: String::from_str(e) }),
    }
}

} // verus!
