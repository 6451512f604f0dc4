use vstd::prelude::*;
use crate::actor::{normalize_tag, language_kind, Actor, ActorKind, ActorView, KindView};
use crate::text::{
    all_alpha, all_digits, alpha_run, chars_of, is_digit, is_digit_char, leading_letters,
    lemma_alpha_run_is, lower, lowercase, string_of, text_view,
};

verus! {

/// What `url::Url::parse` makes of this text, as far as the relay reads it: `None` where the
/// text is no URL, else what `Url::host_str` and `Url::domain` return, in this order.
pub uninterp spec fn url_parts_of(s: Seq<char>) -> Option<(Option<Seq<char>>, Option<Seq<char>>)>;

/// What is read of a URL: its host as text, if it has one, and its domain name, if its
/// host is one.
#[derive(Debug)]
pub struct Location {
    pub host: Option<String>,
    pub domain: Option<String>,
}

/// `url::Url::parse`, with `Url::host_str` and `Url::domain` of the URL.
#[verifier::external_body]
pub(crate) fn parse_url(s: &str) -> (r: Option<Location>)
    ensures
        match r {
            Some(location) => url_parts_of(s@) == Some(
                (text_view(location.host), text_view(location.domain)),
            ),
            None => url_parts_of(s@) is None,
        },
{
    match url::Url::parse(s) {
        Ok(u) => Some(
            Location { host: u.host_str().map(str::to_string), domain: u.domain().map(str::to_string) },
        ),
        Err(_) => None,
    }
}

/// The domain name of the URL that the text is, where it is one whose host is a domain
/// name.
pub open spec fn url_domain_of(s: Seq<char>) -> Option<Seq<char>> {
    match url_parts_of(s) {
        Some(parts) => parts.1,
        None => None,
    }
}

/// `None` where the text is no URL, else the host of the URL, if it has one.
pub open spec fn url_host_of(s: Seq<char>) -> Option<Option<Seq<char>>> {
    match url_parts_of(s) {
        Some(parts) => Some(parts.0),
        None => None,
    }
}

/// The domain name of the URL.
pub fn url_domain(s: &str) -> (r: Option<String>)
    ensures
        text_view(r) == url_domain_of(s@),
{
    match parse_url(s) {
        Some(location) => location.domain,
        None => None,
    }
}

/// The host of the URL as text; `None` where the text is no URL.
pub fn url_host(s: &str) -> (r: Option<Option<String>>)
    ensures
        match r {
            Some(host) => url_host_of(s@) == Some(text_view(host)),
            None => url_host_of(s@) is None,
        },
{
    match parse_url(s) {
        Some(location) => Some(location.host),
        None => None,
    }
}

/// A hashtag of a post.
#[derive(Debug)]
pub struct Tag {
    pub name: String,
}

/// What the relay reads of a post. A post without `url` is a repost.
#[derive(Debug)]
pub struct Post {
    pub url: Option<String>,
    pub uri: String,
    pub tags: Option<Vec<Tag>>,
    pub language: Option<String>,
}

/// A post as plain values.
pub struct PostView {
    pub url: Option<Seq<char>>,
    pub uri: Seq<char>,
    pub tags: Seq<Seq<char>>,
    pub language: Option<Seq<char>>,
}

/// The letters of a tag name that is made of letters followed by decimal digits, at least
/// one of each.
pub open spec fn dated_prefix(name: Seq<char>) -> Option<Seq<char>> {
    let n = alpha_run(name);
    if 0 < n < name.len() && all_digits(name.skip(n)) {
        Some(name.take(n))
    } else {
        None
    }
}

/// Letters followed by digits part where the letters end.
pub proof fn lemma_dated_prefix(letters: Seq<char>, digits: Seq<char>)
    requires
        letters.len() > 0,
        digits.len() > 0,
        all_alpha(letters),
        all_digits(digits),
    ensures
        dated_prefix(letters + digits) == Some(letters),
{
    let name = letters + digits;
    let k = letters.len() as int;
    assert(name[k] == digits[0]);
    assert forall|j: int| 0 <= j < k implies crate::text::is_alpha(#[trigger] name[j]) by {
        assert(name[j] == letters[j]);
    }
    lemma_alpha_run_is(name, k);
    assert(name.skip(k) =~= digits);
    assert(name.take(k) =~= letters);
}

/// The actors that one tag name is relayed under: none for the empty name, else the tag
/// itself and, for a name that ends in a date, the tag without the date.
pub open spec fn tag_kinds(name: Seq<char>) -> Seq<KindView> {
    if name.len() == 0 {
        Seq::empty()
    } else {
        match dated_prefix(name) {
            Some(p) => seq![KindView::Tag(normalize_tag(name)), KindView::Tag(normalize_tag(p))],
            None => seq![KindView::Tag(normalize_tag(name))],
        }
    }
}

/// The actors of the tag names, in the order of the names.
pub open spec fn tags_kinds(names: Seq<Seq<char>>) -> Seq<KindView>
    decreases names.len(),
{
    if names.len() == 0 {
        Seq::empty()
    } else {
        tags_kinds(names.drop_last()) + tag_kinds(names.last())
    }
}

/// The domain name that is read of the URL of a post, where it has a URL with one.
pub open spec fn post_domain(url: Option<Seq<char>>) -> Option<Seq<char>> {
    match url {
        Some(u) => url_domain_of(u),
        None => None,
    }
}

/// The lowercase domain name of the URL.
pub open spec fn origin_domain(url: Option<Seq<char>>) -> Option<Seq<char>> {
    match post_domain(url) {
        Some(d) => Some(lower(d)),
        None => None,
    }
}

/// The instance actor of a post whose URL has this domain name, if it has one.
pub open spec fn instance_kinds_of(domain: Option<Seq<char>>) -> Seq<KindView> {
    match domain {
        Some(d) => seq![KindView::Instance(lower(d))],
        None => Seq::empty(),
    }
}

impl PostView {
    /// The language actor of the post, where it has a language that begins with a letter.
    pub open spec fn language_kinds(self) -> Seq<KindView> {
        match self.language {
            Some(l) => match language_kind(l) {
                Some(k) => seq![k],
                None => Seq::empty(),
            },
            None => Seq::empty(),
        }
    }

    /// The kinds of actor that a post is announced under whose URL has the domain name
    /// `domain`, if any: the instance, then the tags in their order, then the language.
    pub open spec fn kinds_from(self, domain: Option<Seq<char>>) -> Seq<KindView> {
        instance_kinds_of(domain) + tags_kinds(self.tags) + self.language_kinds()
    }

    /// The kinds of actor that the post is announced under: the instance, then the tags in
    /// their order, then the language.
    pub open spec fn kinds(self) -> Seq<KindView> {
        self.kinds_from(post_domain(self.url))
    }

    /// The actors of `host` that a post is announced under whose URL has the domain name
    /// `domain`, if any.
    pub open spec fn targets_from(self, host: Seq<char>, domain: Option<Seq<char>>) -> Seq<ActorView> {
        Seq::new(
            self.kinds_from(domain).len(),
            |i: int| ActorView { host, kind: self.kinds_from(domain)[i] },
        )
    }

    /// The actors of `host` that the post is announced under.
    pub open spec fn targets(self, host: Seq<char>) -> Seq<ActorView> {
        self.targets_from(host, post_domain(self.url))
    }
}

/// The domain name, where there is one, as plain values.
pub open spec fn domain_view(domain: Option<&str>) -> Option<Seq<char>> {
    match domain {
        Some(d) => Some(d@),
        None => None,
    }
}

/// Derivation is pure: posts that read the same have the same actors on the same host.
pub proof fn lemma_targets_pure(first: PostView, second: PostView, host: Seq<char>)
    requires
        first.url == second.url,
        first.uri == second.uri,
        first.tags == second.tags,
        first.language == second.language,
    ensures
        first.kinds() == second.kinds(),
        first.targets(host) == second.targets(host),
{
}

/// The kinds as plain values.
pub open spec fn kind_views(kinds: Seq<ActorKind>) -> Seq<KindView> {
    Seq::new(kinds.len(), |i: int| kinds[i]@)
}

/// The actors as plain values.
pub open spec fn actor_views(actors: Seq<Actor>) -> Seq<ActorView> {
    Seq::new(actors.len(), |i: int| actors[i]@)
}

impl View for Post {
    type V = PostView;

    open spec fn view(&self) -> PostView {
        PostView {
            url: match self.url {
                Some(u) => Some(u@),
                None => None,
            },
            uri: self.uri@,
            tags: match self.tags {
                Some(t) => Seq::new(t@.len(), |i: int| t@[i].name@),
                None => Seq::empty(),
            },
            language: match self.language {
                Some(l) => Some(l@),
                None => None,
            },
        }
    }
}

/// The letters of a tag name that ends in a date.
fn date_stripped(name: &str) -> (r: Option<String>)
    ensures
        match r {
            Some(p) => dated_prefix(name@) == Some(p@),
            None => dated_prefix(name@) is None,
        },
{
    let v = chars_of(name);
    let n = leading_letters(&v);
    if n == 0 || n >= v.len() {
        return None;
    }
    let mut i: usize = n;
    while i < v.len()
        invariant
            0 < n <= i <= v@.len(),
            n < v@.len(),
            v@ == name@,
            n == alpha_run(v@),
            forall|j: int| n <= j < i ==> is_digit(#[trigger] v@[j]),
        decreases v@.len() - i,
    {
        if !is_digit_char(v[i]) {
            proof {
                assert(v@.skip(n as int)[i - n] == v@[i as int]);
                assert(!is_digit(v@.skip(n as int)[i - n]));
            }
            return None;
        }
        i += 1;
    }
    proof {
        assert forall|j: int| 0 <= j < v@.skip(n as int).len() implies is_digit(
            #[trigger] v@.skip(n as int)[j],
        ) by {
            assert(v@.skip(n as int)[j] == v@[n + j]);
        }
    }
    Some(string_of(&v, 0, n))
}

impl Post {
    /// The lowercase domain name of the post's URL, where it has one.
    pub fn host(&self) -> (r: Option<String>)
        ensures
            match r {
                Some(h) => origin_domain(self@.url) == Some(h@),
                None => origin_domain(self@.url) is None,
            },
    {
        match &self.url {
            Some(u) => match url_domain(u.as_str()) {
                Some(d) => Some(lowercase(d.as_str())),
                None => None,
            },
            None => None,
        }
    }

    /// The names of the post's tags, in their order.
    pub fn tags(&self) -> (r: Vec<String>)
        ensures
            r@.len() == self@.tags.len(),
            forall|i: int| 0 <= i < r@.len() ==> (#[trigger] r@[i])@ == self@.tags[i],
    {
        let mut out: Vec<String> = Vec::new();
        match &self.tags {
            None => {},
            Some(tags) => {
                let mut i: usize = 0;
                while i < tags.len()
                    invariant
                        i <= tags@.len(),
                        self.tags == Some(*tags),
                        out@.len() == i,
                        forall|j: int| 0 <= j < i ==> (#[trigger] out@[j])@ == tags@[j].name@,
                    decreases tags@.len() - i,
                {
                    out.push(tags[i].name.clone());
                    i += 1;
                }
            },
        }
        out
    }

    /// The domain name that is read of the post's URL, where it has a URL with one.
    pub fn domain(&self) -> (r: Option<String>)
        ensures
            text_view(r) == post_domain(self@.url),
    {
        match &self.url {
            Some(u) => url_domain(u.as_str()),
            None => None,
        }
    }

    /// The kinds of actor that the post is announced under, `domain` being the domain name
    /// that was read of its URL: the instance of that name, then for each tag the tag and,
    /// where its name ends in a date, the tag without the date, then the language. Each
    /// payload is in the form that its kind keeps it in.
    pub fn relay_target_kinds_from(&self, domain: Option<&str>) -> (r: Vec<ActorKind>)
        ensures
            kind_views(r@) == self@.kinds_from(domain_view(domain)),
            forall|i: int| 0 <= i < r@.len() ==> (#[trigger] r@[i])@.is_topic(),
    {
        let mut out: Vec<ActorKind> = Vec::new();
        match domain {
            Some(d) => {
                out.push(ActorKind::from_instance(d));
            },
            None => {},
        }
        assert(kind_views(out@) =~= instance_kinds_of(domain_view(domain)));
        let names = self.tags();
        let mut i: usize = 0;
        assert(names@.take(0).len() == 0);
        while i < names.len()
            invariant
                i <= names@.len(),
                names@.len() == self@.tags.len(),
                forall|j: int| 0 <= j < names@.len() ==> (#[trigger] names@[j])@ == self@.tags[j],
                forall|j: int| 0 <= j < out@.len() ==> (#[trigger] out@[j])@.is_topic(),
                kind_views(out@) == instance_kinds_of(domain_view(domain)) + tags_kinds(
                    self@.tags.take(i as int),
                ),
            decreases names@.len() - i,
        {
            let name = names[i].as_str();
            let ghost before = kind_views(out@);
            proof {
                assert(self@.tags.take(i + 1).drop_last() =~= self@.tags.take(i as int));
                assert(self@.tags.take(i + 1).last() == name@);
            }
            if !name.is_empty() {
                out.push(ActorKind::from_tag(name));
                match date_stripped(name) {
                    Some(p) => {
                        out.push(ActorKind::from_tag(p.as_str()));
                    },
                    None => {},
                }
            }
            assert(kind_views(out@) =~= before + tag_kinds(name@));
            i += 1;
        }
        assert(self@.tags.take(names@.len() as int) =~= self@.tags);
        let ghost before = kind_views(out@);
        match &self.language {
            Some(l) => match ActorKind::from_language(l.as_str()) {
                Some(k) => {
                    out.push(k);
                },
                None => {},
            },
            None => {},
        }
        assert(kind_views(out@) =~= before + self@.language_kinds());
        out
    }

    /// The kinds of actor that the post is announced under: the instance of its URL, then
    /// for each tag the tag and, where its name ends in a date, the tag without the date,
    /// then the language. Each payload is in the form that its kind keeps it in.
    pub fn relay_target_kinds(&self) -> (r: Vec<ActorKind>)
        ensures
            kind_views(r@) == self@.kinds(),
            forall|i: int| 0 <= i < r@.len() ==> (#[trigger] r@[i])@.is_topic(),
    {
        match self.domain() {
            Some(d) => self.relay_target_kinds_from(Some(d.as_str())),
            None => self.relay_target_kinds_from(None),
        }
    }

    /// The actors of `hostname` that the post is announced under, `domain` being the domain
    /// name that was read of its URL, in the order of `relay_target_kinds_from`.
    pub fn relay_targets_from(&self, hostname: &str, domain: Option<&str>) -> (r: Vec<Actor>)
        ensures
            actor_views(r@) == self@.targets_from(hostname@, domain_view(domain)),
            forall|i: int| 0 <= i < r@.len() ==> (#[trigger] r@[i])@.kind.is_topic(),
    {
        let kinds = self.relay_target_kinds_from(domain);
        let ghost expected = self@.kinds_from(domain_view(domain));
        let mut out: Vec<Actor> = Vec::new();
        let mut i: usize = 0;
        while i < kinds.len()
            invariant
                i <= kinds@.len(),
                kind_views(kinds@) == expected,
                forall|j: int| 0 <= j < kinds@.len() ==> (#[trigger] kinds@[j])@.is_topic(),
                out@.len() == i,
                forall|j: int|
                    0 <= j < i ==> (#[trigger] out@[j])@ == (ActorView {
                        host: hostname@,
                        kind: kinds@[j]@,
                    }),
            decreases kinds@.len() - i,
        {
            out.push(Actor { host: hostname.to_string(), kind: kinds[i].clone() });
            i += 1;
        }
        proof {
            assert forall|j: int| 0 <= j < kinds@.len() implies kinds@[j]@ == expected[j] by {
                assert(kind_views(kinds@)[j] == kinds@[j]@);
            }
            assert(actor_views(out@) =~= self@.targets_from(hostname@, domain_view(domain)));
        }
        out
    }

    /// The actors of `hostname` that the post is announced under, in the order of
    /// `relay_target_kinds`. The result is a function of the post and the host name alone.
    pub fn relay_targets(&self, hostname: &str) -> (r: Vec<Actor>)
        ensures
            actor_views(r@) == self@.targets(hostname@),
            forall|i: int| 0 <= i < r@.len() ==> (#[trigger] r@[i])@.kind.is_topic(),
    {
        match self.domain() {
            Some(d) => self.relay_targets_from(hostname, Some(d.as_str())),
            None => self.relay_targets_from(hostname, None),
        }
    }
}

} // verus!
