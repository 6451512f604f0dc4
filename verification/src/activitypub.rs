use vstd::prelude::*;

verus! {

/// An ActivityStreams actor document.
#[derive(Debug)]
pub struct Actor {
    pub jsonld_context: Vec<String>,
    pub actor_type: String,
    pub id: String,
    pub name: Option<String>,
    pub icon: Option<Media>,
    pub inbox: String,
    pub outbox: Option<String>,
    pub endpoints: Option<ActorEndpoints>,
    pub public_key: ActorPublicKey,
    pub preferred_username: Option<String>,
}

#[derive(Debug)]
pub struct ActorEndpoints {
    pub shared_inbox: String,
}

#[derive(Debug)]
pub struct ActorPublicKey {
    pub id: String,
    pub owner: Option<String>,
    pub pem: String,
}

/// An ActivityPub activity with an object of type `O`.
#[derive(Debug)]
pub struct Action<O> {
    pub jsonld_context: String,
    pub action_type: String,
    pub id: String,
    pub actor: String,
    pub to: Option<String>,
    pub object: Option<O>,
}

#[derive(Debug)]
pub struct Media {
    pub media_type: Option<String>,
    pub content_type: Option<String>,
    pub url: String,
}

/// A value of a document as far as an actor can be named by it: a text, a list with each
/// item that is a text, or anything else.
#[derive(Debug)]
pub enum Reference {
    Text(String),
    List(Vec<Option<String>>),
    Other,
}

/// The object of an activity: a reference, or an activity of its own of which the type and
/// the object are read.
#[derive(Debug)]
pub enum ActivityObject {
    Plain(Reference),
    Nested { object_type: Option<String>, object: Option<Reference> },
}

/// What is read of an activity that came in.
#[derive(Debug)]
pub struct Activity {
    pub action_type: String,
    pub id: String,
    pub actor: String,
    pub object: Option<ActivityObject>,
}

/// A reference as plain values.
pub enum ReferenceView {
    Text(Seq<char>),
    List(Seq<Option<Seq<char>>>),
    Other,
}

impl View for Reference {
    type V = ReferenceView;

    open spec fn view(&self) -> ReferenceView {
        match self {
            Reference::Text(t) => ReferenceView::Text(t@),
            Reference::List(items) => ReferenceView::List(
                Seq::new(items@.len(), |i: int| crate::text::text_view(items@[i])),
            ),
            Reference::Other => ReferenceView::Other,
        }
    }
}

impl ReferenceView {
    /// The text that the reference names an actor by: the text itself, or the one item of
    /// a list of one text.
    pub open spec fn target(self) -> Option<Seq<char>> {
        match self {
            ReferenceView::Text(t) => Some(t),
            ReferenceView::List(items) => if items.len() == 1 {
                items[0]
            } else {
                None
            },
            ReferenceView::Other => None,
        }
    }
}

impl Reference {
    /// The text that the reference names an actor by.
    pub fn target(&self) -> (r: Option<&str>)
        ensures
            match r {
                Some(t) => self@.target() == Some(t@),
                None => self@.target() is None,
            },
    {
        match self {
            Reference::Text(t) => Some(t.as_str()),
            Reference::List(items) => if items.len() == 1 {
                match &items[0] {
                    Some(t) => Some(t.as_str()),
                    None => None,
                }
            } else {
                None
            },
            Reference::Other => None,
        }
    }
}

} // verus!
