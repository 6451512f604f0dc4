use vstd::prelude::*;
use vstd::string::StringExecFns;
use vstd::string::StrSliceExecFns;
use vstd::string::StringSliceAdditionalSpecFns;
use crate::activitypub;
use crate::activitypub::{Reference, ReferenceView};
use crate::text::{
    text_view,
    all_alpha, all_ascii, alpha_run, ascii_lower, is_whitespace, lemma_alpha_run, chars_of, find_from, has_prefix, leading_letters,
    lemma_lower_fixed, lemma_no_whitespace_fixed, lemma_without_whitespace, lower, lowercase,
    lemma_position_is, position, same_text, starts_with, string_of, strip_whitespace, without_whitespace,
};

verus! {

/// What `deunicode::deunicode` returns for a string of these characters.
pub uninterp spec fn deunicode_of(s: Seq<char>) -> Seq<char>;

/// `deunicode::deunicode`: an ASCII transliteration of the string. The result holds ASCII
/// characters only, and ASCII text is returned as it is.
#[verifier::external_body]
pub(crate) fn deunicode(s: &str) -> (r: String)
    ensures
        r@ == deunicode_of(s@),
        all_ascii(r@),
        all_ascii(s@) ==> r@ == s@,
{
    deunicode::deunicode(s)
}

/// The ASCII form of `s`: `s` itself where it is ASCII, its transliteration otherwise.
pub open spec fn ascii_fold(s: Seq<char>) -> Seq<char> {
    if all_ascii(s) {
        s
    } else {
        deunicode_of(s)
    }
}

/// A tag name in the form under which it is followed: transliterated to ASCII, in
/// lowercase, without white space.
pub open spec fn normalize_tag(tag: Seq<char>) -> Seq<char> {
    without_whitespace(lower(ascii_fold(tag)))
}

/// The payload of a language actor: the letters that the lowercase language tag begins with.
pub open spec fn language_code(language: Seq<char>) -> Seq<char> {
    lower(language).take(alpha_run(lower(language)))
}

/// The language actor of a language tag, where it has one.
pub open spec fn language_kind(language: Seq<char>) -> Option<KindView> {
    if language_code(language).len() == 0 {
        None
    } else {
        Some(KindView::Language(language_code(language)))
    }
}

/// The three kinds of topic actor, each with its payload as a sequence of characters.
pub enum KindView {
    Tag(Seq<char>),
    Instance(Seq<char>),
    Language(Seq<char>),
}

impl KindView {
    /// The path segment and user name prefix of the kind.
    pub open spec fn name(self) -> Seq<char> {
        match self {
            KindView::Tag(_) => "tag"@,
            KindView::Instance(_) => "instance"@,
            KindView::Language(_) => "language"@,
        }
    }

    pub open spec fn payload(self) -> Seq<char> {
        match self {
            KindView::Tag(p) => p,
            KindView::Instance(p) => p,
            KindView::Language(p) => p,
        }
    }

    /// Whether the payload is in the form that the kind keeps it in: a tag is ASCII
    /// without capitals and without white space, an instance is the lowercase form of a
    /// name, and a language is the letters that a lowercase language tag begins with, at
    /// least one.
    pub open spec fn is_topic(self) -> bool {
        match self {
            KindView::Tag(p) => is_normal_tag(p),
            KindView::Instance(p) => exists|name: Seq<char>| p == #[trigger] lower(name),
            KindView::Language(p) => p.len() > 0 && all_alpha(p) && exists|language: Seq<char>|
                p == #[trigger] language_code(language),
        }
    }
}

/// What a topic actor relays: the posts with a tag, from an instance, or in a language.
#[derive(Debug, Hash, PartialEq, Eq, PartialOrd, Ord)]
#[allow(clippy::enum_variant_names)]
pub enum ActorKind {
    TagRelay(String),
    InstanceRelay(String),
    LanguageRelay(String),
}

impl View for ActorKind {
    type V = KindView;

    open spec fn view(&self) -> KindView {
        match self {
            ActorKind::TagRelay(p) => KindView::Tag(p@),
            ActorKind::InstanceRelay(p) => KindView::Instance(p@),
            ActorKind::LanguageRelay(p) => KindView::Language(p@),
        }
    }
}

impl Clone for ActorKind {
    fn clone(&self) -> (r: Self)
        ensures
            r == *self,
    {
        match self {
            ActorKind::TagRelay(p) => ActorKind::TagRelay(p.clone()),
            ActorKind::InstanceRelay(p) => ActorKind::InstanceRelay(p.clone()),
            ActorKind::LanguageRelay(p) => ActorKind::LanguageRelay(p.clone()),
        }
    }
}

/// Whether the text is ASCII without capitals and without white space.
pub open spec fn is_normal_tag(s: Seq<char>) -> bool {
    forall|i: int|
        0 <= i < s.len() ==> (#[trigger] s[i] as u32) < 128 && !('A' <= s[i] && s[i] <= 'Z')
            && !is_whitespace(s[i])
}

/// A normalized tag is ASCII, without capitals and without white space, and normalizing
/// it again changes nothing, whenever the transliteration it was made from is ASCII.
pub proof fn lemma_normalize_tag_shape(tag: Seq<char>)
    requires
        all_ascii(ascii_fold(tag)),
    ensures
        is_normal_tag(normalize_tag(tag)),
        normalize_tag(normalize_tag(tag)) == normalize_tag(tag),
{
    let f = ascii_fold(tag);
    let l = ascii_lower(f);
    let n = without_whitespace(l);
    assert(lower(f) == l);
    assert(all_ascii(l));
    lemma_without_whitespace(l);
    assert forall|i: int| 0 <= i < n.len() implies (#[trigger] n[i] as u32) < 128 && !('A' <= n[i]
        && n[i] <= 'Z') by {
        assert(l.contains(n[i]));
        let j = choose|j: int| 0 <= j < l.len() && l[j] == n[i];
        assert(l[j] == crate::text::ascii_lower_char(f[j]));
    }
    assert(all_ascii(n));
    assert(ascii_fold(n) == n);
    lemma_lower_fixed(n);
    lemma_no_whitespace_fixed(n);
}

impl ActorKind {
    /// The actor of a tag, under its normalized name: ASCII, without capitals and without
    /// white space. Normalizing a normalized name changes nothing.
    pub fn from_tag(tag: &str) -> (r: Self)
        ensures
            r@ == KindView::Tag(normalize_tag(tag@)),
            r@.is_topic(),
            normalize_tag(normalize_tag(tag@)) == normalize_tag(tag@),
    {
        let folded = deunicode(tag);
        let lowered = lowercase(folded.as_str());
        let chars = chars_of(lowered.as_str());
        let stripped = strip_whitespace(&chars);
        proof {
            assert(folded@ == ascii_fold(tag@));
            lemma_normalize_tag_shape(tag@);
            assert(stripped@.subrange(0, stripped@.len() as int) =~= stripped@);
        }
        ActorKind::TagRelay(string_of(&stripped, 0, stripped.len()))
    }

    /// The actor of an instance, under its name in lowercase.
    pub fn from_instance(instance: &str) -> (r: Self)
        ensures
            r@ == KindView::Instance(lower(instance@)),
            r@.is_topic(),
    {
        ActorKind::InstanceRelay(lowercase(instance))
    }

    /// The actor of a language: `None` where the language tag begins with no letter. The
    /// payload of a language actor is never empty, and made of letters only.
    pub fn from_language(language: &str) -> (r: Option<Self>)
        ensures
            match r {
                Some(k) => language_kind(language@) == Some(k@) && k@.is_topic(),
                None => language_kind(language@) is None,
            },
    {
        let lowered = lowercase(language);
        let chars = chars_of(lowered.as_str());
        let n = leading_letters(&chars);
        proof {
            lemma_alpha_run(chars@);
            assert(chars@.subrange(0, n as int) =~= language_code(language@));
        }
        if n == 0 {
            None
        } else {
            Some(ActorKind::LanguageRelay(string_of(&chars, 0, n)))
        }
    }

    /// The path segment and user name prefix of the kind.
    pub fn name(&self) -> (r: &'static str)
        ensures
            r@ == self@.name(),
    {
        match self {
            ActorKind::TagRelay(_) => "tag",
            ActorKind::InstanceRelay(_) => "instance",
            ActorKind::LanguageRelay(_) => "language",
        }
    }

    pub fn payload(&self) -> (r: &str)
        ensures
            r@ == self@.payload(),
    {
        match self {
            ActorKind::TagRelay(p) => p.as_str(),
            ActorKind::InstanceRelay(p) => p.as_str(),
            ActorKind::LanguageRelay(p) => p.as_str(),
        }
    }

    /// Whether the two are of the same kind with the same payload.
    pub fn same(&self, other: &ActorKind) -> (r: bool)
        ensures
            r == (self@ == other@),
    {
        match (self, other) {
            (ActorKind::TagRelay(a), ActorKind::TagRelay(b)) => *a == *b,
            (ActorKind::InstanceRelay(a), ActorKind::InstanceRelay(b)) => *a == *b,
            (ActorKind::LanguageRelay(a), ActorKind::LanguageRelay(b)) => *a == *b,
            _ => false,
        }
    }
}

/// What `urlencoding::decode` returns for a string of these characters: the decoded text,
/// or `None` where the decoded bytes are no UTF-8.
pub uninterp spec fn url_decoded(s: Seq<char>) -> Option<Seq<char>>;

/// `urlencoding::decode`: the text with each `%xx` replaced by the byte it stands for. Text
/// without a `%` is returned as it is.
#[verifier::external_body]
pub(crate) fn url_decode(s: &str) -> (r: Option<String>)
    ensures
        match r {
            Some(t) => url_decoded(s@) == Some(t@),
            None => url_decoded(s@) is None,
        },
        position(s@, '%') == s@.len() ==> r is Some && r->0@ == s@,
{
    match urlencoding::decode(s) {
        Ok(t) => Some(t.into_owned()),
        Err(_) => None,
    }
}

/// The percent-decoded form of `s`, where it has one.
pub open spec fn percent_decode(s: Seq<char>) -> Option<Seq<char>> {
    if position(s, '%') == s.len() {
        Some(s)
    } else {
        url_decoded(s)
    }
}

/// Whether a byte stands for itself in percent-encoded text: a letter, a digit, or one of
/// `-`, `.`, `_`, `~`.
pub open spec fn is_unreserved(b: u8) -> bool {
    ||| 0x30 <= b <= 0x39
    ||| 0x41 <= b <= 0x5a
    ||| 0x61 <= b <= 0x7a
    ||| b == 0x2d
    ||| b == 0x2e
    ||| b == 0x5f
    ||| b == 0x7e
}

/// The hexadecimal digit, in capitals, of a number below 16.
pub open spec fn hex_digit(n: u8) -> char {
    if n < 10 {
        (0x30 + n) as char
    } else {
        (0x41 + n - 10) as char
    }
}

/// One byte, percent-encoded.
pub open spec fn percent_encode_byte(b: u8) -> Seq<char> {
    if is_unreserved(b) {
        seq![b as char]
    } else {
        seq!['%', hex_digit(b / 16), hex_digit(b % 16)]
    }
}

/// The bytes, percent-encoded one after the other.
pub open spec fn percent_encode(bytes: Seq<u8>) -> Seq<char>
    decreases bytes.len(),
{
    if bytes.len() == 0 {
        Seq::empty()
    } else {
        percent_encode(bytes.drop_last()) + percent_encode_byte(bytes.last())
    }
}

/// `urlencoding::encode`: the UTF-8 bytes of the text, each percent-encoded unless it is
/// a letter, a digit, or one of `-`, `.`, `_`, `~`.
#[verifier::external_body]
pub(crate) fn url_encode(s: &str) -> (r: String)
    ensures
        r@ == percent_encode(s.spec_bytes()),
{
    urlencoding::encode(s).into_owned()
}

/// A topic actor as plain values: the local host name and the kind.
pub struct ActorView {
    pub host: Seq<char>,
    pub kind: KindView,
}

impl ActorView {
    /// `https://{host}/{kind}/{payload}`
    pub open spec fn uri(self) -> Seq<char> {
        "https://"@ + self.host + "/"@ + self.kind.name() + "/"@ + self.kind.payload()
    }

    /// `{uri}#key`
    pub open spec fn key_id(self) -> Seq<char> {
        self.uri() + "#key"@
    }

    /// `{kind}-{payload}`
    pub open spec fn preferred_username(self) -> Seq<char> {
        self.kind.name() + "-"@ + self.kind.payload()
    }
}

/// A local virtual actor: posts with a tag, from an instance or in a language, as relayed
/// by one host.
#[derive(Debug, Hash, PartialEq, Eq, PartialOrd, Ord)]
pub struct Actor {
    pub host: String,
    pub kind: ActorKind,
}

impl View for Actor {
    type V = ActorView;

    open spec fn view(&self) -> ActorView {
        ActorView { host: self.host@, kind: self.kind@ }
    }
}

impl Clone for Actor {
    fn clone(&self) -> (r: Self)
        ensures
            r == *self,
    {
        Actor { host: self.host.clone(), kind: self.kind.clone() }
    }
}

/// The name and the host of `{prefix}{name}@{host}`, parted at the first `@`.
pub open spec fn parse_acct(s: Seq<char>, prefix: Seq<char>) -> Option<(Seq<char>, Seq<char>)> {
    let at = position(s, '@');
    if has_prefix(s, prefix) && prefix.len() <= at < s.len() {
        Some((s.subrange(prefix.len() as int, at), s.skip(at + 1)))
    } else {
        None
    }
}

/// The kind with this path segment and this payload, the payload put into the form that
/// the kind keeps it in: a tag normalized, an instance in lowercase, a language cut down to
/// the letters it begins with. There is none for another segment, nor for a language
/// that begins with no letter.
pub open spec fn kind_named(name: Seq<char>, payload: Seq<char>) -> Option<KindView> {
    if name == "tag"@ {
        Some(KindView::Tag(normalize_tag(payload)))
    } else if name == "instance"@ {
        Some(KindView::Instance(lower(payload)))
    } else if name == "language"@ {
        language_kind(payload)
    } else {
        None
    }
}

/// The actor of `{host}/{kind}/{payload}`: exactly three segments, the last one
/// percent-encoded. The payload is put into the form that the kind keeps it in.
pub open spec fn parse_path(s: Seq<char>) -> Option<ActorView> {
    let i = position(s, '/');
    let after = s.skip(i + 1);
    let j = position(after, '/');
    let topic = after.skip(j + 1);
    if i < s.len() && j < after.len() && position(topic, '/') == topic.len() {
        match percent_decode(topic) {
            Some(payload) => match kind_named(after.take(j), payload) {
                Some(kind) => Some(ActorView { host: s.take(i), kind }),
                None => None,
            },
            None => None,
        }
    } else {
        None
    }
}

/// The actor that a resource names, either as `acct:{kind}-{payload}@{host}` or as
/// `https://{host}/{kind}/{payload}`.
pub open spec fn parse_actor(s: Seq<char>) -> Option<ActorView> {
    if has_prefix(s, "acct:tag-"@) {
        match parse_acct(s, "acct:tag-"@) {
            Some((name, host)) => Some(ActorView { host, kind: KindView::Tag(normalize_tag(name)) }),
            None => None,
        }
    } else if has_prefix(s, "acct:instance-"@) {
        match parse_acct(s, "acct:instance-"@) {
            Some((name, host)) => Some(ActorView { host, kind: KindView::Instance(lower(name)) }),
            None => None,
        }
    } else if has_prefix(s, "acct:language-"@) {
        match parse_acct(s, "acct:language-"@) {
            Some((name, host)) => match language_kind(name) {
                Some(kind) => Some(ActorView { host, kind }),
                None => None,
            },
            None => None,
        }
    } else if has_prefix(s, "https://"@) {
        parse_path(s.skip("https://"@.len() as int))
    } else {
        None
    }
}

/// The name and the host of `{prefix}{name}@{host}`.
fn split_acct(v: &Vec<char>, prefix: &str) -> (r: Option<(String, String)>)
    ensures
        match r {
            Some((name, host)) => parse_acct(v@, prefix@) == Some((name@, host@)),
            None => parse_acct(v@, prefix@) is None,
        },
{
    if !starts_with(v, prefix) {
        return None;
    }
    let off = prefix.unicode_len();
    let at = find_from(v, '@', 0);
    proof {
        assert(v@.skip(0) =~= v@);
    }
    if at < off || at >= v.len() {
        return None;
    }
    let name = string_of(v, off, at);
    let host = string_of(v, at + 1, v.len());
    Some((name, host))
}

/// The kind with this path segment and this payload.
fn kind_of_segment(name: &str, payload: &str) -> (r: Option<ActorKind>)
    ensures
        match r {
            Some(k) => kind_named(name@, payload@) == Some(k@) && k@.is_topic(),
            None => kind_named(name@, payload@) is None,
        },
{
    if same_text(name, "tag") {
        Some(ActorKind::from_tag(payload))
    } else if same_text(name, "instance") {
        Some(ActorKind::from_instance(payload))
    } else if same_text(name, "language") {
        ActorKind::from_language(payload)
    } else {
        None
    }
}

/// The actor of `{host}/{kind}/{payload}`, read from `v[from..]`.
fn actor_of_path(v: &Vec<char>, from: usize) -> (r: Option<Actor>)
    requires
        from <= v@.len(),
    ensures
        match r {
            Some(a) => parse_path(v@.skip(from as int)) == Some(a@) && a@.kind.is_topic(),
            None => parse_path(v@.skip(from as int)) is None,
        },
{
    let ghost s = v@.skip(from as int);
    let i = find_from(v, '/', from);
    if i >= v.len() {
        return None;
    }
    let ghost after = s.skip(i - from + 1);
    assert(after =~= v@.skip(i + 1));
    let j = find_from(v, '/', i + 1);
    if j >= v.len() {
        return None;
    }
    let ghost topic = after.skip(j - i);
    assert(topic =~= v@.skip(j + 1));
    let k = find_from(v, '/', j + 1);
    if k < v.len() {
        return None;
    }
    let host = string_of(v, from, i);
    let name = string_of(v, i + 1, j);
    let raw = string_of(v, j + 1, v.len());
    proof {
        assert(host@ =~= s.take(i - from));
        assert(name@ =~= after.take(j - i - 1));
        assert(raw@ =~= topic);
    }
    match url_decode(raw.as_str()) {
        Some(payload) => match kind_of_segment(name.as_str(), payload.as_str()) {
            Some(kind) => Some(Actor { host, kind }),
            None => None,
        },
        None => None,
    }
}

impl Actor {
    /// The actor that a resource names, either as `acct:{kind}-{payload}@{host}` or as
    /// `https://{host}/{kind}/{payload}`; `None` for anything else. In both forms the
    /// payload is put into the form that the kind keeps it in.
    pub fn from_uri(uri: &str) -> (r: Option<Self>)
        ensures
            match r {
                Some(a) => parse_actor(uri@) == Some(a@) && a@.kind.is_topic(),
                None => parse_actor(uri@) is None,
            },
    {
        let v = chars_of(uri);
        if starts_with(&v, "acct:tag-") {
            match split_acct(&v, "acct:tag-") {
                Some((name, host)) => Some(
                    Actor { host, kind: ActorKind::from_tag(name.as_str()) },
                ),
                None => None,
            }
        } else if starts_with(&v, "acct:instance-") {
            match split_acct(&v, "acct:instance-") {
                Some((name, host)) => Some(
                    Actor { host, kind: ActorKind::from_instance(name.as_str()) },
                ),
                None => None,
            }
        } else if starts_with(&v, "acct:language-") {
            match split_acct(&v, "acct:language-") {
                Some((name, host)) => match ActorKind::from_language(name.as_str()) {
                    Some(kind) => Some(Actor { host, kind }),
                    None => None,
                },
                None => None,
            }
        } else if starts_with(&v, "https://") {
            let off = "https://".unicode_len();
            actor_of_path(&v, off)
        } else {
            None
        }
    }

    /// `https://{host}/{kind}/{payload}`
    pub fn uri(&self) -> (r: String)
        ensures
            r@ == self@.uri(),
    {
        let mut s = String::from_str("https://");
        s.append(self.host.as_str());
        s.append("/");
        s.append(self.kind.name());
        s.append("/");
        s.append(self.kind.payload());
        s
    }

    /// `{uri}#key`
    pub fn key_id(&self) -> (r: String)
        ensures
            r@ == self@.key_id(),
    {
        let mut s = self.uri();
        s.append("#key");
        s
    }

    /// `{kind}-{payload}`
    pub fn preferred_username(&self) -> (r: String)
        ensures
            r@ == self@.preferred_username(),
    {
        let mut s = String::from_str(self.kind.name());
        s.append("-");
        s.append(self.kind.payload());
        s
    }

    /// Whether the two are the same actor: same host, same kind, same payload.
    pub fn same(&self, other: &Actor) -> (r: bool)
        ensures
            r == (self@ == other@),
    {
        self.host == other.host && self.kind.same(&other.kind)
    }
}

impl ActorView {
    /// The name that the actor is shown under: `#{tag}`, the instance, or `in {language}`.
    pub open spec fn display_name(self) -> Seq<char> {
        match self.kind {
            KindView::Tag(tag) => "#"@ + tag,
            KindView::Instance(instance) => instance,
            KindView::Language(language) => "in "@ + language,
        }
    }

    /// `https://{host}/instance/{host}`, the inbox that all actors of the host share.
    pub open spec fn shared_inbox(self) -> Seq<char> {
        "https://"@ + self.host + "/instance/"@ + self.host
    }

    /// `{uri}/outbox`
    pub open spec fn outbox(self) -> Seq<char> {
        self.uri() + "/outbox"@
    }
}

/// The actor that a reference names.
pub open spec fn actor_of_reference(object: ReferenceView) -> Option<ActorView> {
    match object.target() {
        Some(t) => parse_actor(t),
        None => None,
    }
}

impl Actor {
    /// The actor that the object of an activity names: the object is the actor's resource
    /// as a text, or a list of that one text.
    pub fn from_object(object: &Reference) -> (r: Option<Self>)
        ensures
            match r {
                Some(a) => actor_of_reference(object@) == Some(a@) && a@.kind.is_topic(),
                None => actor_of_reference(object@) is None,
            },
    {
        match object.target() {
            Some(t) => Self::from_uri(t),
            None => None,
        }
    }

    /// The name that the actor is shown under.
    pub fn display_name(&self) -> (r: String)
        ensures
            r@ == self@.display_name(),
    {
        match &self.kind {
            ActorKind::TagRelay(tag) => {
                let mut s = String::from_str("#");
                s.append(tag.as_str());
                s
            },
            ActorKind::InstanceRelay(instance) => instance.clone(),
            ActorKind::LanguageRelay(language) => {
                let mut s = String::from_str("in ");
                s.append(language.as_str());
                s
            },
        }
    }

    /// The actor's document, with `pem` as its public key: a `Service` whose inbox is its
    /// id, with the host's shared inbox, an outbox, and the key under `{uri}#key`.
    pub fn as_activitypub(&self, pem: String) -> (r: activitypub::Actor)
        ensures
            r.jsonld_context@.len() == 2,
            r.jsonld_context@[0]@ == "https://www.w3.org/ns/activitystreams"@,
            r.jsonld_context@[1]@ == "https://w3id.org/security/v1"@,
            r.actor_type@ == "Service"@,
            r.id@ == self@.uri(),
            text_view(r.name) == Some(self@.display_name()),
            r.icon matches Some(icon) && text_view(icon.media_type) == Some("Image"@) && text_view(
                icon.content_type,
            ) == Some("image/jpeg"@) && icon.url@ == "https://fedi.buzz/assets/favicon48.png"@,
            r.inbox@ == self@.uri(),
            text_view(r.outbox) == Some(self@.outbox()),
            r.endpoints matches Some(endpoints) && endpoints.shared_inbox@ == self@.shared_inbox(),
            r.public_key.id@ == self@.key_id(),
            text_view(r.public_key.owner) == Some(self@.uri()),
            r.public_key.pem == pem,
            text_view(r.preferred_username) == Some(self@.preferred_username()),
    {
        let mut context: Vec<String> = Vec::new();
        context.push(String::from_str("https://www.w3.org/ns/activitystreams"));
        context.push(String::from_str("https://w3id.org/security/v1"));
        let mut shared_inbox = String::from_str("https://");
        shared_inbox.append(self.host.as_str());
        shared_inbox.append("/instance/");
        shared_inbox.append(self.host.as_str());
        let mut outbox = self.uri();
        outbox.append("/outbox");
        activitypub::Actor {
            jsonld_context: context,
            actor_type: String::from_str("Service"),
            id: self.uri(),
            name: Some(self.display_name()),
            icon: Some(
                activitypub::Media {
                    media_type: Some(String::from_str("Image")),
                    content_type: Some(String::from_str("image/jpeg")),
                    url: String::from_str("https://fedi.buzz/assets/favicon48.png"),
                },
            ),
            inbox: self.uri(),
            outbox: Some(outbox),
            endpoints: Some(activitypub::ActorEndpoints { shared_inbox }),
            public_key: activitypub::ActorPublicKey {
                id: self.key_id(),
                owner: Some(self.uri()),
                pem,
            },
            preferred_username: Some(self.preferred_username()),
        }
    }
}

/// The URI of an actor names that actor again, as long as its payload is in the form that
/// its kind keeps it in, neither its host nor its payload holds a `/`, and its payload
/// holds no `%`.
pub proof fn lemma_uri_names_actor(actor: ActorView)
    requires
        kind_named(actor.kind.name(), actor.kind.payload()) == Some(actor.kind),
        forall|i: int| 0 <= i < actor.host.len() ==> actor.host[i] != '/',
        forall|i: int|
            0 <= i < actor.kind.payload().len() ==> actor.kind.payload()[i] != '/'
                && actor.kind.payload()[i] != '%',
    ensures
        parse_actor(actor.uri()) == Some(actor),
{
    reveal_strlit("https://");
    reveal_strlit("/");
    reveal_strlit("tag");
    reveal_strlit("instance");
    reveal_strlit("language");
    reveal_strlit("acct:tag-");
    reveal_strlit("acct:instance-");
    reveal_strlit("acct:language-");
    let uri = actor.uri();
    let name = actor.kind.name();
    let payload = actor.kind.payload();
    let rest = actor.host + "/"@ + name + "/"@ + payload;
    let after = name + "/"@ + payload;
    assert(uri[0] == 'h');
    assert(uri.take(9)[0] == uri[0]);
    if uri.len() >= 14 {
        assert(uri.take(14)[0] == uri[0]);
    }
    assert(uri.take(8) =~= "https://"@);
    assert(uri.skip(8) =~= rest);
    let i = actor.host.len() as int;
    assert(rest[i] == '/');
    assert forall|k: int| 0 <= k < i implies rest[k] != '/' by {
        assert(rest[k] == actor.host[k]);
    }
    lemma_position_is(rest, '/', i);
    assert(rest.skip(i + 1) =~= after);
    assert(rest.take(i) =~= actor.host);
    let j = name.len() as int;
    assert(after[j] == '/');
    assert forall|k: int| 0 <= k < j implies after[k] != '/' by {
        assert(after[k] == name[k]);
    }
    lemma_position_is(after, '/', j);
    assert(after.skip(j + 1) =~= payload);
    assert(after.take(j) =~= name);
    lemma_position_is(payload, '/', payload.len() as int);
    lemma_position_is(payload, '%', payload.len() as int);
    assert(parse_path(rest) == Some(actor));
}

} // verus!
