use vstd::prelude::*;
use vstd::string::StringExecFns;
use vstd::utf8::encode_utf8;
use crate::actor::{percent_encode, url_encode, Actor, ActorView};
use crate::relay::{
    actor_views, parse_url, url_host, url_host_of, url_parts_of, Location, Post, PostView,
};
use crate::text::{contains_text, text_view, text_views};

verus! {

/// What `chrono` writes for the UTC time this many seconds after the epoch, in RFC 3339 with
/// whole seconds and `Z`; `None` where it has no such time.
pub uninterp spec fn rfc3339_of(secs: i64) -> Option<Seq<char>>;

/// `chrono::DateTime::from_timestamp` and `DateTime::to_rfc3339_opts` with whole seconds and
/// `Z` for UTC.
#[verifier::external_body]
pub(crate) fn rfc3339(secs: i64) -> (r: Option<String>)
    ensures
        match r {
            Some(t) => rfc3339_of(secs) == Some(t@),
            None => rfc3339_of(secs) is None,
        },
{
    match chrono::DateTime::from_timestamp(secs, 0) {
        Some(t) => Some(t.to_rfc3339_opts(chrono::SecondsFormat::Secs, true)),
        None => None,
    }
}

/// The time of publication of an announce made `secs` seconds after the epoch.
pub fn published_at(secs: i64) -> (r: Option<String>)
    ensures
        match r {
            Some(t) => rfc3339_of(secs) == Some(t@),
            None => rfc3339_of(secs) is None,
        },
{
    rfc3339(secs)
}

/// The actors without those that came before in the sequence.
pub open spec fn distinct_upto(actors: Seq<ActorView>, n: nat) -> Seq<ActorView>
    decreases n,
{
    if n == 0 {
        Seq::empty()
    } else {
        let before = distinct_upto(actors, (n - 1) as nat);
        if before.contains(actors[n - 1]) {
            before
        } else {
            before.push(actors[n - 1])
        }
    }
}

/// Each actor once, in the order in which they first come.
pub open spec fn distinct(actors: Seq<ActorView>) -> Seq<ActorView> {
    distinct_upto(actors, actors.len())
}

/// `distinct_upto` holds nothing twice, and holds what the first `n` actors hold.
pub proof fn lemma_distinct(actors: Seq<ActorView>, n: nat)
    requires
        n <= actors.len(),
    ensures
        distinct_upto(actors, n).no_duplicates(),
        forall|a: ActorView|
            distinct_upto(actors, n).contains(a) <==> exists|i: int|
                0 <= i < n && actors[i] == a,
    decreases n,
{
    if n > 0 {
        let before = distinct_upto(actors, (n - 1) as nat);
        let d = distinct_upto(actors, n);
        let last = actors[n - 1];
        lemma_distinct(actors, (n - 1) as nat);
        assert forall|a: ActorView| d.contains(a) <==> exists|i: int|
            0 <= i < n && actors[i] == a by {
            if d.contains(a) {
                if before.contains(a) {
                    let i = choose|i: int| 0 <= i < n - 1 && actors[i] == a;
                    assert(0 <= i < n && actors[i] == a);
                } else {
                    let j = choose|j: int| 0 <= j < d.len() && d[j] == a;
                    if j < before.len() {
                        assert(before[j] == a);
                    }
                    assert(a == last);
                    assert(0 <= n - 1 < n && actors[n - 1] == a);
                }
            }
            if exists|i: int| 0 <= i < n && actors[i] == a {
                let i = choose|i: int| 0 <= i < n && actors[i] == a;
                if i < n - 1 {
                    assert(before.contains(a));
                    let j = choose|j: int| 0 <= j < before.len() && before[j] == a;
                    assert(d[j] == a);
                } else if before.contains(a) {
                    let j = choose|j: int| 0 <= j < before.len() && before[j] == a;
                    assert(d[j] == a);
                } else {
                    assert(d[d.len() - 1] == a);
                }
            }
        }
    }
}

/// Each of the post's actors once: a post is announced once under each.
pub fn distinct_targets(targets: &Vec<Actor>) -> (r: Vec<Actor>)
    ensures
        actor_views(r@) == distinct(actor_views(targets@)),
        actor_views(r@).no_duplicates(),
        (forall|i: int| 0 <= i < targets@.len() ==> (#[trigger] targets@[i])@.kind.is_topic())
            ==> forall|i: int| 0 <= i < r@.len() ==> (#[trigger] r@[i])@.kind.is_topic(),
{
    let mut out: Vec<Actor> = Vec::new();
    let mut i: usize = 0;
    assert(actor_views(out@) =~= distinct_upto(actor_views(targets@), 0));
    while i < targets.len()
        invariant
            i <= targets@.len(),
            actor_views(out@) == distinct_upto(actor_views(targets@), i as nat),
            (forall|k: int| 0 <= k < targets@.len() ==> (#[trigger] targets@[k])@.kind.is_topic())
                ==> forall|k: int| 0 <= k < out@.len() ==> (#[trigger] out@[k])@.kind.is_topic(),
        decreases targets@.len() - i,
    {
        let ghost before = actor_views(out@);
        let mut found = false;
        let mut k: usize = 0;
        while k < out.len()
            invariant_except_break
                !found,
                forall|j: int| 0 <= j < k ==> actor_views(out@)[j] != targets@[i as int]@,
            invariant
                k <= out@.len(),
                i < targets@.len(),
            ensures
                found <==> actor_views(out@).contains(targets@[i as int]@),
            decreases out@.len() - k,
        {
            if out[k].same(&targets[i]) {
                assert(actor_views(out@)[k as int] == targets@[i as int]@);
                found = true;
                break;
            }
            k += 1;
        }
        assert(actor_views(targets@)[i as int] == targets@[i as int]@);
        if !found {
            out.push(targets[i].clone());
            assert(actor_views(out@) =~= before.push(targets@[i as int]@));
        }
        i += 1;
    }
    proof {
        lemma_distinct(actor_views(targets@), targets@.len());
    }
    out
}

/// What was read of a URL, as plain values: its host and its domain name.
pub open spec fn location_view(location: Option<Location>) -> Option<(Option<Seq<char>>, Option<Seq<char>>)> {
    match location {
        Some(l) => Some((text_view(l.host), text_view(l.domain))),
        None => None,
    }
}

/// The actors that a post is announced under, `location` being what was read of its URL:
/// none for a repost, which has no URL, and none for a post whose URL is no URL; else each
/// of its actors once.
pub open spec fn announce_targets_read(
    post: PostView,
    host: Seq<char>,
    location: Option<(Option<Seq<char>>, Option<Seq<char>>)>,
) -> Seq<ActorView> {
    match location {
        Some(parts) => if post.url is None {
            Seq::empty()
        } else {
            distinct(post.targets_from(host, parts.1))
        },
        None => Seq::empty(),
    }
}

/// The actors that a post is announced under: none for a repost, which has no URL, and none
/// for a post whose URL is no URL; else each of its actors once.
pub open spec fn announce_targets_of(post: PostView, host: Seq<char>) -> Seq<ActorView> {
    match post.url {
        Some(u) => announce_targets_read(post, host, url_parts_of(u)),
        None => Seq::empty(),
    }
}

/// The actors of `hostname` that the post is announced under, `location` being what was
/// read of its URL: each once, in the order in which they are derived, each with its
/// payload in the form that its kind keeps it in.
pub fn announce_targets_from(post: &Post, hostname: &str, location: Option<Location>) -> (r: Vec<Actor>)
    ensures
        actor_views(r@) == announce_targets_read(post@, hostname@, location_view(location)),
        actor_views(r@).no_duplicates(),
        forall|i: int| 0 <= i < r@.len() ==> (#[trigger] r@[i])@.kind.is_topic(),
{
    match location {
        Some(l) => {
            if post.url.is_none() {
                let none: Vec<Actor> = Vec::new();
                assert(actor_views(none@) =~= Seq::empty());
                none
            } else {
                match l.domain {
                    Some(d) => distinct_targets(&post.relay_targets_from(hostname, Some(d.as_str()))),
                    None => distinct_targets(&post.relay_targets_from(hostname, None)),
                }
            }
        },
        None => {
            let none: Vec<Actor> = Vec::new();
            assert(actor_views(none@) =~= Seq::empty());
            none
        },
    }
}

/// The actors of `hostname` that the post is announced under, each once, in the order in
/// which they are derived. A repost is announced under none, and so is a post whose URL
/// is no URL.
pub fn announce_targets(post: &Post, hostname: &str) -> (r: Vec<Actor>)
    ensures
        actor_views(r@) == announce_targets_of(post@, hostname@),
        actor_views(r@).no_duplicates(),
        forall|i: int| 0 <= i < r@.len() ==> (#[trigger] r@[i])@.kind.is_topic(),
{
    match &post.url {
        Some(u) => announce_targets_from(post, hostname, parse_url(u.as_str())),
        None => {
            let none: Vec<Actor> = Vec::new();
            assert(actor_views(none@) =~= Seq::empty());
            none
        },
    }
}

/// The activity that announces a post on behalf of a topic actor.
#[derive(Debug)]
pub struct Announce {
    pub jsonld_context: String,
    pub announce_type: String,
    pub actor: String,
    pub published: String,
    pub to: Vec<String>,
    pub object: String,
    pub id: String,
}

/// `https://{host}/announce/{post_url}`, the URL of the post percent-encoded.
pub open spec fn announce_id(host: Seq<char>, post_url: Seq<char>) -> Seq<char> {
    "https://"@ + host + "/announce/"@ + percent_encode(encode_utf8(post_url))
}

/// The announce of the post at `post_url`, whose URI is `post_uri`, by `actor`.
pub fn announce(actor: &Actor, hostname: &str, post_url: &str, post_uri: &str, published: &str) -> (r:
    Announce)
    ensures
        r.jsonld_context@ == "https://www.w3.org/ns/activitystreams"@,
        r.announce_type@ == "Announce"@,
        r.actor@ == actor@.uri(),
        r.published@ == published@,
        r.to@.len() == 1,
        r.to@[0]@ == "https://www.w3.org/ns/activitystreams#Public"@,
        r.object@ == post_uri@,
        r.id@ == announce_id(hostname@, post_url@),
{
    let mut id = String::from_str("https://");
    id.append(hostname);
    id.append("/announce/");
    let encoded = url_encode(post_url);
    id.append(encoded.as_str());
    let mut to: Vec<String> = Vec::new();
    to.push(String::from_str("https://www.w3.org/ns/activitystreams#Public"));
    Announce {
        jsonld_context: String::from_str("https://www.w3.org/ns/activitystreams"),
        announce_type: String::from_str("Announce"),
        actor: actor.uri(),
        published: String::from_str(published),
        to,
        object: String::from_str(post_uri),
        id,
    }
}

/// One delivery: the announce of `actor_id` for the post at `post_url`, signed with
/// `key_id`, to `inbox_url`, queued at the worker of `host`.
#[derive(Debug)]
pub struct Job {
    pub post_url: String,
    pub actor_id: String,
    pub key_id: String,
    pub inbox_url: String,
    pub host: String,
}

/// A job as plain values.
pub struct JobView {
    pub post_url: Seq<char>,
    pub actor_id: Seq<char>,
    pub key_id: Seq<char>,
    pub inbox_url: Seq<char>,
    pub host: Seq<char>,
}

impl View for Job {
    type V = JobView;

    open spec fn view(&self) -> JobView {
        JobView {
            post_url: self.post_url@,
            actor_id: self.actor_id@,
            key_id: self.key_id@,
            inbox_url: self.inbox_url@,
            host: self.host@,
        }
    }
}

/// The jobs as plain values.
pub open spec fn job_views(jobs: Seq<Job>) -> Seq<JobView> {
    Seq::new(jobs.len(), |i: int| jobs[i]@)
}

/// The deliveries of one post: the inboxes that were considered, and the jobs to queue, both
/// in order.
#[derive(Debug)]
pub struct Plan {
    pub seen_inboxes: Vec<String>,
    pub jobs: Vec<Job>,
}

/// An actor with the inboxes that follow it, as the store gave them.
#[derive(Debug)]
pub struct Audience {
    pub actor: Actor,
    pub inboxes: Vec<String>,
}

/// An audience as plain values.
pub struct AudienceView {
    pub actor: ActorView,
    pub inboxes: Seq<Seq<char>>,
}

impl View for Audience {
    type V = AudienceView;

    open spec fn view(&self) -> AudienceView {
        AudienceView { actor: self.actor@, inboxes: text_views(self.inboxes@) }
    }
}

/// A plan as plain values.
pub struct PlanView {
    pub seen: Seq<Seq<char>>,
    pub jobs: Seq<JobView>,
}

impl View for Plan {
    type V = PlanView;

    open spec fn view(&self) -> PlanView {
        PlanView { seen: text_views(self.seen_inboxes@), jobs: job_views(self.jobs@) }
    }
}

/// The host as the key of its worker: the empty text where a URL has none.
pub open spec fn worker_key(host: Option<Seq<char>>) -> Seq<char> {
    match host {
        Some(h) => h,
        None => Seq::empty(),
    }
}

/// The plan after one inbox of one actor's followers was considered, `host` being what was
/// read of the inbox: `None` where it is no URL, else its host, if it has one. An inbox that
/// is no URL, or was seen before for this post, changes nothing. Any other is seen from now
/// on, and gets a job unless its host is the post's own.
pub open spec fn offer_read(
    plan: PlanView,
    origin: Option<Seq<char>>,
    post_url: Seq<char>,
    actor: ActorView,
    inbox: Seq<char>,
    host: Option<Option<Seq<char>>>,
) -> PlanView {
    match host {
        None => plan,
        Some(host) => {
            if plan.seen.contains(inbox) {
                plan
            } else if host == origin {
                PlanView { seen: plan.seen.push(inbox), jobs: plan.jobs }
            } else {
                PlanView {
                    seen: plan.seen.push(inbox),
                    jobs: plan.jobs.push(
                        JobView {
                            post_url,
                            actor_id: actor.uri(),
                            key_id: actor.key_id(),
                            inbox_url: inbox,
                            host: worker_key(host),
                        },
                    ),
                }
            }
        },
    }
}

/// The plan after one inbox of one actor's followers was considered, the inbox read as a
/// URL.
pub open spec fn offer(
    plan: PlanView,
    origin: Option<Seq<char>>,
    post_url: Seq<char>,
    actor: ActorView,
    inbox: Seq<char>,
) -> PlanView {
    offer_read(plan, origin, post_url, actor, inbox, url_host_of(inbox))
}

/// What was read of a URL, as plain values.
pub open spec fn host_view(host: Option<Option<String>>) -> Option<Option<Seq<char>>> {
    match host {
        Some(h) => Some(text_view(h)),
        None => None,
    }
}

/// The plan after the first `k` of the inboxes were considered.
pub open spec fn offer_upto(
    plan: PlanView,
    k: nat,
    origin: Option<Seq<char>>,
    post_url: Seq<char>,
    actor: ActorView,
    inboxes: Seq<Seq<char>>,
) -> PlanView
    decreases k,
{
    if k == 0 {
        plan
    } else {
        offer(
            offer_upto(plan, (k - 1) as nat, origin, post_url, actor, inboxes),
            origin,
            post_url,
            actor,
            inboxes[k - 1],
        )
    }
}

/// The plan after the followers of the first `n` actors were considered.
pub open spec fn plan_upto(
    n: nat,
    origin: Option<Seq<char>>,
    post_url: Seq<char>,
    audiences: Seq<AudienceView>,
) -> PlanView
    decreases n,
{
    if n == 0 {
        PlanView { seen: Seq::empty(), jobs: Seq::empty() }
    } else {
        offer_upto(
            plan_upto((n - 1) as nat, origin, post_url, audiences),
            audiences[n - 1].inboxes.len(),
            origin,
            post_url,
            audiences[n - 1].actor,
            audiences[n - 1].inboxes,
        )
    }
}

/// The deliveries of the post at `post_url` to the followers of its actors: none where
/// `post_url` is no URL.
pub open spec fn plan_of(post_url: Seq<char>, audiences: Seq<AudienceView>) -> PlanView {
    match url_host_of(post_url) {
        None => PlanView { seen: Seq::empty(), jobs: Seq::empty() },
        Some(origin) => plan_upto(audiences.len(), origin, post_url, audiences),
    }
}

/// What holds of every plan for a post from `origin`: no inbox was seen twice, each job goes
/// to an inbox that was seen, no two jobs go to the same inbox, and no job goes to a host
/// that is the post's own.
pub open spec fn sound(plan: PlanView, origin: Option<Seq<char>>) -> bool {
    &&& plan.seen.no_duplicates()
    &&& forall|j: int| 0 <= j < plan.jobs.len() ==> plan.seen.contains(#[trigger] plan.jobs[j].inbox_url)
    &&& forall|i: int, j: int|
        0 <= i < j < plan.jobs.len() ==> (#[trigger] plan.jobs[i]).inbox_url != (
        #[trigger] plan.jobs[j]).inbox_url
    &&& forall|j: int|
        0 <= j < plan.jobs.len() ==> url_host_of(#[trigger] plan.jobs[j].inbox_url) is Some
            && url_host_of(plan.jobs[j].inbox_url)->0 != origin
}

/// Considering one more inbox keeps a plan sound.
pub proof fn lemma_offer_sound(
    plan: PlanView,
    origin: Option<Seq<char>>,
    post_url: Seq<char>,
    actor: ActorView,
    inbox: Seq<char>,
)
    requires
        sound(plan, origin),
    ensures
        sound(offer(plan, origin, post_url, actor, inbox), origin),
{
    let next = offer(plan, origin, post_url, actor, inbox);
    if url_host_of(inbox) is Some && !plan.seen.contains(inbox) {
        let seen = plan.seen.push(inbox);
        assert forall|a: int, b: int| 0 <= a < seen.len() && 0 <= b < seen.len() && a != b implies seen[a]
            != seen[b] by {
            if a < plan.seen.len() && b < plan.seen.len() {
            } else if a < plan.seen.len() {
                assert(plan.seen.contains(plan.seen[a]));
            } else {
                assert(plan.seen.contains(plan.seen[b]));
            }
        }
        assert forall|j: int| 0 <= j < next.jobs.len() implies seen.contains(
            #[trigger] next.jobs[j].inbox_url,
        ) by {
            if j < plan.jobs.len() {
                let u = plan.jobs[j].inbox_url;
                assert(plan.seen.contains(u));
                let i = choose|i: int| 0 <= i < plan.seen.len() && plan.seen[i] == u;
                assert(seen[i] == u);
            } else {
                assert(seen[seen.len() - 1] == inbox);
            }
        }
        assert forall|i: int, j: int| 0 <= i < j < next.jobs.len() implies (
        #[trigger] next.jobs[i]).inbox_url != (#[trigger] next.jobs[j]).inbox_url by {
            if j >= plan.jobs.len() {
                assert(plan.seen.contains(plan.jobs[i].inbox_url));
            }
        }
    }
}

/// Considering more inboxes keeps a plan sound.
pub proof fn lemma_offer_upto_sound(
    plan: PlanView,
    k: nat,
    origin: Option<Seq<char>>,
    post_url: Seq<char>,
    actor: ActorView,
    inboxes: Seq<Seq<char>>,
)
    requires
        sound(plan, origin),
    ensures
        sound(offer_upto(plan, k, origin, post_url, actor, inboxes), origin),
    decreases k,
{
    if k > 0 {
        lemma_offer_upto_sound(plan, (k - 1) as nat, origin, post_url, actor, inboxes);
        lemma_offer_sound(
            offer_upto(plan, (k - 1) as nat, origin, post_url, actor, inboxes),
            origin,
            post_url,
            actor,
            inboxes[k - 1],
        );
    }
}

/// The plan for any number of actors is sound.
pub proof fn lemma_plan_upto_sound(
    n: nat,
    origin: Option<Seq<char>>,
    post_url: Seq<char>,
    audiences: Seq<AudienceView>,
)
    ensures
        sound(plan_upto(n, origin, post_url, audiences), origin),
    decreases n,
{
    if n > 0 {
        lemma_plan_upto_sound((n - 1) as nat, origin, post_url, audiences);
        lemma_offer_upto_sound(
            plan_upto((n - 1) as nat, origin, post_url, audiences),
            audiences[n - 1].inboxes.len(),
            origin,
            post_url,
            audiences[n - 1].actor,
            audiences[n - 1].inboxes,
        );
    }
}

/// For one post, whatever its actors and whoever follows them: no two jobs go to the same
/// inbox, and no job goes to an inbox whose host is the host of the post.
pub proof fn lemma_plan_sound(post_url: Seq<char>, audiences: Seq<AudienceView>)
    ensures
        forall|i: int, j: int|
            0 <= i < j < plan_of(post_url, audiences).jobs.len() ==> (#[trigger] plan_of(
                post_url,
                audiences,
            ).jobs[i]).inbox_url != (#[trigger] plan_of(post_url, audiences).jobs[j]).inbox_url,
        forall|j: int|
            0 <= j < plan_of(post_url, audiences).jobs.len() ==> url_host_of(
                (#[trigger] plan_of(post_url, audiences).jobs[j]).inbox_url,
            ) != url_host_of(post_url),
{
    match url_host_of(post_url) {
        None => {},
        Some(origin) => {
            lemma_plan_upto_sound(audiences.len(), origin, post_url, audiences);
        },
    }
}

/// The audiences as plain values.
pub open spec fn audience_views(audiences: Seq<Audience>) -> Seq<AudienceView> {
    Seq::new(audiences.len(), |i: int| audiences[i]@)
}

/// Considers one inbox of the followers of `actor` for a post from `origin`, `host` being
/// what was read of the inbox: `None` where it is no URL, else its host, if it has one.
pub fn offer_inbox(
    plan: &mut Plan,
    origin: &Option<String>,
    post_url: &str,
    actor: &Actor,
    inbox: &str,
    host: Option<Option<String>>,
)
    ensures
        final(plan)@ == offer_read(
            old(plan)@,
            text_view(*origin),
            post_url@,
            actor@,
            inbox@,
            host_view(host),
        ),
{
    let ghost before = plan@;
    match host {
        None => {},
        Some(host) => {
            if contains_text(&plan.seen_inboxes, inbox) {
                return ;
            }
            plan.seen_inboxes.push(String::from_str(inbox));
            assert(text_views(plan.seen_inboxes@) =~= before.seen.push(inbox@));
            let own = match (&host, origin) {
                (Some(a), Some(b)) => *a == *b,
                (None, None) => true,
                _ => false,
            };
            if !own {
                let ghost read = text_view(host);
                let key = match host {
                    Some(h) => h,
                    None => String::new(),
                };
                plan.jobs.push(
                    Job {
                        post_url: String::from_str(post_url),
                        actor_id: actor.uri(),
                        key_id: actor.key_id(),
                        inbox_url: String::from_str(inbox),
                        host: key,
                    },
                );
                assert(job_views(plan.jobs@) =~= before.jobs.push(
                    JobView {
                        post_url: post_url@,
                        actor_id: actor@.uri(),
                        key_id: actor@.key_id(),
                        inbox_url: inbox@,
                        host: worker_key(read),
                    },
                ));
            } else {
                assert(job_views(plan.jobs@) =~= before.jobs);
            }
        },
    }
}

/// The deliveries of the post at `post_url` to the followers of its actors. No two jobs go
/// to the same inbox, and none goes to the host that the post came from.
pub fn plan_jobs(post_url: &str, audiences: &Vec<Audience>) -> (r: Plan)
    ensures
        r@ == plan_of(post_url@, audience_views(audiences@)),
        forall|i: int, j: int|
            0 <= i < j < r@.jobs.len() ==> (#[trigger] r@.jobs[i]).inbox_url != (
            #[trigger] r@.jobs[j]).inbox_url,
        forall|j: int|
            0 <= j < r@.jobs.len() ==> url_host_of((#[trigger] r@.jobs[j]).inbox_url) != url_host_of(
                post_url@,
            ),
{
    let mut plan = Plan { seen_inboxes: Vec::new(), jobs: Vec::new() };
    proof {
        lemma_plan_sound(post_url@, audience_views(audiences@));
        assert(text_views(plan.seen_inboxes@) =~= Seq::empty());
        assert(job_views(plan.jobs@) =~= Seq::empty());
    }
    let origin = match url_host(post_url) {
        Some(origin) => origin,
        None => {
            return plan;
        },
    };
    let ghost origin_view: Option<Seq<char>> = text_view(origin);
    let ghost av = audience_views(audiences@);
    let mut i: usize = 0;
    while i < audiences.len()
        invariant
            i <= audiences@.len(),
            av == audience_views(audiences@),
            origin_view == text_view(origin),
            plan@ == plan_upto(i as nat, origin_view, post_url@, av),
        decreases audiences@.len() - i,
    {
        let audience = &audiences[i];
        let ghost start = plan@;
        let mut k: usize = 0;
        while k < audience.inboxes.len()
            invariant
                k <= audience.inboxes@.len(),
                i < audiences@.len(),
                audience@ == av[i as int],
                origin_view == text_view(origin),
                plan@ == offer_upto(
                    start,
                    k as nat,
                    origin_view,
                    post_url@,
                    av[i as int].actor,
                    av[i as int].inboxes,
                ),
            decreases audience.inboxes@.len() - k,
        {
            let inbox = audience.inboxes[k].as_str();
            let host = url_host(inbox);
            offer_inbox(&mut plan, &origin, post_url, &audience.actor, inbox, host);
            k += 1;
        }
        i += 1;
    }
    plan
}

/// What is counted for a post: `skip` for a repost, which has no URL; `no_relay` where no
/// inbox was considered; else `relay`.
pub open spec fn action_of(url: Option<Seq<char>>, seen: nat) -> Seq<char> {
    if url is None {
        "skip"@
    } else if seen == 0 {
        "no_relay"@
    } else {
        "relay"@
    }
}

/// The label under which a post is counted, given the plan that was made for it.
pub fn relay_action(post: &Post, plan: &Plan) -> (r: &'static str)
    ensures
        r@ == action_of(post@.url, plan@.seen.len()),
{
    if post.url.is_none() {
        "skip"
    } else if plan.seen_inboxes.len() == 0 {
        "no_relay"
    } else {
        "relay"
    }
}

/// An inbox together with what was read of it as a URL: `None` where it is no URL, else
/// its host, if it has one.
#[derive(Debug)]
pub struct Inbox {
    pub url: String,
    pub host: Option<Option<String>>,
}

/// An actor with the inboxes that follow it, each as it was read.
#[derive(Debug)]
pub struct Reading {
    pub actor: Actor,
    pub inboxes: Vec<Inbox>,
}

/// An inbox as it was read, as plain values.
pub struct InboxView {
    pub url: Seq<char>,
    pub host: Option<Option<Seq<char>>>,
}

/// A reading as plain values.
pub struct ReadingView {
    pub actor: ActorView,
    pub inboxes: Seq<InboxView>,
}

impl View for Inbox {
    type V = InboxView;

    open spec fn view(&self) -> InboxView {
        InboxView { url: self.url@, host: host_view(self.host) }
    }
}

impl View for Reading {
    type V = ReadingView;

    open spec fn view(&self) -> ReadingView {
        ReadingView {
            actor: self.actor@,
            inboxes: Seq::new(self.inboxes@.len(), |i: int| self.inboxes@[i]@),
        }
    }
}

/// The readings as plain values.
pub open spec fn reading_views(readings: Seq<Reading>) -> Seq<ReadingView> {
    Seq::new(readings.len(), |i: int| readings[i]@)
}

/// The plan after the first `k` of the inboxes were considered, each as it was read.
pub open spec fn offer_read_upto(
    plan: PlanView,
    k: nat,
    origin: Option<Seq<char>>,
    post_url: Seq<char>,
    actor: ActorView,
    inboxes: Seq<InboxView>,
) -> PlanView
    decreases k,
{
    if k == 0 {
        plan
    } else {
        offer_read(
            offer_read_upto(plan, (k - 1) as nat, origin, post_url, actor, inboxes),
            origin,
            post_url,
            actor,
            inboxes[k - 1].url,
            inboxes[k - 1].host,
        )
    }
}

/// The plan after the followers of the first `n` actors were considered, each inbox as it
/// was read.
pub open spec fn plan_read_upto(
    n: nat,
    origin: Option<Seq<char>>,
    post_url: Seq<char>,
    readings: Seq<ReadingView>,
) -> PlanView
    decreases n,
{
    if n == 0 {
        PlanView { seen: Seq::empty(), jobs: Seq::empty() }
    } else {
        offer_read_upto(
            plan_read_upto((n - 1) as nat, origin, post_url, readings),
            readings[n - 1].inboxes.len(),
            origin,
            post_url,
            readings[n - 1].actor,
            readings[n - 1].inboxes,
        )
    }
}

/// The deliveries of a post to the followers of its actors, `origin` being what was read
/// of the post's URL and each inbox coming with what was read of it: none where the post's
/// URL is no URL.
pub open spec fn plan_read_of(
    origin: Option<Option<Seq<char>>>,
    post_url: Seq<char>,
    readings: Seq<ReadingView>,
) -> PlanView {
    match origin {
        None => PlanView { seen: Seq::empty(), jobs: Seq::empty() },
        Some(host) => plan_read_upto(readings.len(), host, post_url, readings),
    }
}

/// What holds of every plan, however the inboxes were read: no inbox was seen twice, each
/// job goes to an inbox that was seen, and no two jobs go to the same inbox.
pub open spec fn tidy(plan: PlanView) -> bool {
    &&& plan.seen.no_duplicates()
    &&& forall|j: int| 0 <= j < plan.jobs.len() ==> plan.seen.contains(#[trigger] plan.jobs[j].inbox_url)
    &&& forall|i: int, j: int|
        0 <= i < j < plan.jobs.len() ==> (#[trigger] plan.jobs[i]).inbox_url != (
        #[trigger] plan.jobs[j]).inbox_url
}

/// Whether the job was made for an inbox of the readings whose host is not `origin`, and
/// is queued at the worker of that host.
pub open spec fn made_for_another_host(
    job: JobView,
    origin: Option<Seq<char>>,
    readings: Seq<ReadingView>,
) -> bool {
    exists|a: int, k: int|
        0 <= a < readings.len() && 0 <= k < readings[a].inboxes.len() && (
        #[trigger] readings[a].inboxes[k]).url == job.inbox_url && readings[a].inboxes[k].host
            is Some && readings[a].inboxes[k].host->0 != origin && job.host == worker_key(
            readings[a].inboxes[k].host->0,
        ) && job.actor_id == readings[a].actor.uri()
}

/// Considering one more inbox keeps a plan tidy, whatever was read of the inbox.
pub proof fn lemma_offer_read_tidy(
    plan: PlanView,
    origin: Option<Seq<char>>,
    post_url: Seq<char>,
    actor: ActorView,
    inbox: Seq<char>,
    host: Option<Option<Seq<char>>>,
)
    requires
        tidy(plan),
    ensures
        tidy(offer_read(plan, origin, post_url, actor, inbox, host)),
{
    let next = offer_read(plan, origin, post_url, actor, inbox, host);
    if host is Some && !plan.seen.contains(inbox) {
        let seen = plan.seen.push(inbox);
        assert forall|a: int, b: int| 0 <= a < seen.len() && 0 <= b < seen.len() && a != b implies seen[a]
            != seen[b] by {
            if a < plan.seen.len() && b < plan.seen.len() {
            } else if a < plan.seen.len() {
                assert(plan.seen.contains(plan.seen[a]));
            } else {
                assert(plan.seen.contains(plan.seen[b]));
            }
        }
        assert forall|j: int| 0 <= j < next.jobs.len() implies seen.contains(
            #[trigger] next.jobs[j].inbox_url,
        ) by {
            if j < plan.jobs.len() {
                let u = plan.jobs[j].inbox_url;
                assert(plan.seen.contains(u));
                let i = choose|i: int| 0 <= i < plan.seen.len() && plan.seen[i] == u;
                assert(seen[i] == u);
            } else {
                assert(seen[seen.len() - 1] == inbox);
            }
        }
        assert forall|i: int, j: int| 0 <= i < j < next.jobs.len() implies (
        #[trigger] next.jobs[i]).inbox_url != (#[trigger] next.jobs[j]).inbox_url by {
            if j >= plan.jobs.len() {
                assert(plan.seen.contains(plan.jobs[i].inbox_url));
            }
        }
    }
}

/// What the plan is after the first `k` inboxes of the reading at `a`: tidy, with each job
/// made for an inbox whose host is not the post's.
pub proof fn lemma_offer_read_upto(
    plan: PlanView,
    k: nat,
    origin: Option<Seq<char>>,
    post_url: Seq<char>,
    readings: Seq<ReadingView>,
    a: int,
)
    requires
        0 <= a < readings.len(),
        k <= readings[a].inboxes.len(),
        tidy(plan),
        forall|j: int|
            0 <= j < plan.jobs.len() ==> made_for_another_host(#[trigger] plan.jobs[j], origin, readings),
    ensures
        tidy(offer_read_upto(plan, k, origin, post_url, readings[a].actor, readings[a].inboxes)),
        forall|j: int|
            0 <= j < offer_read_upto(
                plan,
                k,
                origin,
                post_url,
                readings[a].actor,
                readings[a].inboxes,
            ).jobs.len() ==> made_for_another_host(
                #[trigger] offer_read_upto(
                    plan,
                    k,
                    origin,
                    post_url,
                    readings[a].actor,
                    readings[a].inboxes,
                ).jobs[j],
                origin,
                readings,
            ),
    decreases k,
{
    if k > 0 {
        let actor = readings[a].actor;
        let inboxes = readings[a].inboxes;
        let before = offer_read_upto(plan, (k - 1) as nat, origin, post_url, actor, inboxes);
        let after = offer_read_upto(plan, k, origin, post_url, actor, inboxes);
        lemma_offer_read_upto(plan, (k - 1) as nat, origin, post_url, readings, a);
        lemma_offer_read_tidy(before, origin, post_url, actor, inboxes[k - 1].url, inboxes[k - 1].host);
        assert forall|j: int| 0 <= j < after.jobs.len() implies made_for_another_host(
            #[trigger] after.jobs[j],
            origin,
            readings,
        ) by {
            if j < before.jobs.len() {
                assert(after.jobs[j] == before.jobs[j]);
            } else {
                let inbox = readings[a].inboxes[k - 1];
                assert(inbox.url == after.jobs[j].inbox_url);
            }
        }
    }
}

/// What the plan is after the first `n` readings: tidy, with each job made for an inbox
/// whose host is not the post's.
pub proof fn lemma_plan_read_upto(
    n: nat,
    origin: Option<Seq<char>>,
    post_url: Seq<char>,
    readings: Seq<ReadingView>,
)
    requires
        n <= readings.len(),
    ensures
        tidy(plan_read_upto(n, origin, post_url, readings)),
        forall|j: int|
            0 <= j < plan_read_upto(n, origin, post_url, readings).jobs.len()
                ==> made_for_another_host(
                #[trigger] plan_read_upto(n, origin, post_url, readings).jobs[j],
                origin,
                readings,
            ),
    decreases n,
{
    if n > 0 {
        lemma_plan_read_upto((n - 1) as nat, origin, post_url, readings);
        lemma_offer_read_upto(
            plan_read_upto((n - 1) as nat, origin, post_url, readings),
            readings[n - 1].inboxes.len(),
            origin,
            post_url,
            readings,
            n - 1,
        );
    }
}

/// For one post, however its URL and the inboxes were read: no two jobs go to the same
/// inbox, and each job was made for an inbox whose host is not the host of the post.
pub proof fn lemma_plan_read_sound(
    origin: Option<Option<Seq<char>>>,
    post_url: Seq<char>,
    readings: Seq<ReadingView>,
)
    ensures
        tidy(plan_read_of(origin, post_url, readings)),
        origin is Some ==> forall|j: int|
            0 <= j < plan_read_of(origin, post_url, readings).jobs.len() ==> made_for_another_host(
                #[trigger] plan_read_of(origin, post_url, readings).jobs[j],
                origin->0,
                readings,
            ),
{
    match origin {
        None => {},
        Some(host) => {
            lemma_plan_read_upto(readings.len(), host, post_url, readings);
        },
    }
}

/// The deliveries of the post at `post_url` to the followers of its actors, `origin` being
/// what was read of the post's URL and each inbox coming with what was read of it. No two
/// jobs go to the same inbox, and each job was made for an inbox whose host is not the
/// host of the post.
pub fn plan_read(post_url: &str, origin: Option<Option<String>>, readings: &Vec<Reading>) -> (r: Plan)
    ensures
        r@ == plan_read_of(host_view(origin), post_url@, reading_views(readings@)),
        tidy(r@),
        origin is Some ==> forall|j: int|
            0 <= j < r@.jobs.len() ==> made_for_another_host(
                #[trigger] r@.jobs[j],
                host_view(origin)->0,
                reading_views(readings@),
            ),
{
    let mut plan = Plan { seen_inboxes: Vec::new(), jobs: Vec::new() };
    proof {
        lemma_plan_read_sound(host_view(origin), post_url@, reading_views(readings@));
        assert(text_views(plan.seen_inboxes@) =~= Seq::empty());
        assert(job_views(plan.jobs@) =~= Seq::empty());
    }
    let origin = match origin {
        Some(origin) => origin,
        None => {
            return plan;
        },
    };
    let ghost origin_view: Option<Seq<char>> = text_view(origin);
    let ghost rv = reading_views(readings@);
    let mut i: usize = 0;
    while i < readings.len()
        invariant
            i <= readings@.len(),
            rv == reading_views(readings@),
            origin_view == text_view(origin),
            plan@ == plan_read_upto(i as nat, origin_view, post_url@, rv),
        decreases readings@.len() - i,
    {
        let reading = &readings[i];
        let ghost start = plan@;
        let mut k: usize = 0;
        while k < reading.inboxes.len()
            invariant
                k <= reading.inboxes@.len(),
                i < readings@.len(),
                reading@ == rv[i as int],
                origin_view == text_view(origin),
                plan@ == offer_read_upto(
                    start,
                    k as nat,
                    origin_view,
                    post_url@,
                    rv[i as int].actor,
                    rv[i as int].inboxes,
                ),
            decreases reading.inboxes@.len() - k,
        {
            let inbox = &reading.inboxes[k];
            let host = match &inbox.host {
                Some(Some(h)) => Some(Some(h.clone())),
                Some(None) => Some(None),
                None => None,
            };
            assert(host_view(host) == reading@.inboxes[k as int].host);
            offer_inbox(&mut plan, &origin, post_url, &reading.actor, inbox.url.as_str(), host);
            k += 1;
        }
        i += 1;
    }
    plan
}

/// The inboxes, each with what the URL library reads of it.
pub open spec fn read_inboxes(inboxes: Seq<Seq<char>>) -> Seq<InboxView> {
    Seq::new(inboxes.len(), |i: int| InboxView { url: inboxes[i], host: url_host_of(inboxes[i]) })
}

/// The audiences, each inbox with what the URL library reads of it.
pub open spec fn read_audiences(audiences: Seq<AudienceView>) -> Seq<ReadingView> {
    Seq::new(
        audiences.len(),
        |i: int| ReadingView { actor: audiences[i].actor, inboxes: read_inboxes(audiences[i].inboxes) },
    )
}

/// Considering inboxes is considering them as the URL library reads them.
pub proof fn lemma_offer_upto_is_read(
    plan: PlanView,
    k: nat,
    origin: Option<Seq<char>>,
    post_url: Seq<char>,
    actor: ActorView,
    inboxes: Seq<Seq<char>>,
)
    requires
        k <= inboxes.len(),
    ensures
        offer_upto(plan, k, origin, post_url, actor, inboxes) == offer_read_upto(
            plan,
            k,
            origin,
            post_url,
            actor,
            read_inboxes(inboxes),
        ),
    decreases k,
{
    if k > 0 {
        lemma_offer_upto_is_read(plan, (k - 1) as nat, origin, post_url, actor, inboxes);
    }
}

/// The plan for audiences is the plan for them as the URL library reads them.
pub proof fn lemma_plan_upto_is_read(
    n: nat,
    origin: Option<Seq<char>>,
    post_url: Seq<char>,
    audiences: Seq<AudienceView>,
)
    requires
        n <= audiences.len(),
    ensures
        plan_upto(n, origin, post_url, audiences) == plan_read_upto(
            n,
            origin,
            post_url,
            read_audiences(audiences),
        ),
    decreases n,
{
    if n > 0 {
        lemma_plan_upto_is_read((n - 1) as nat, origin, post_url, audiences);
        lemma_offer_upto_is_read(
            plan_upto((n - 1) as nat, origin, post_url, audiences),
            audiences[n - 1].inboxes.len(),
            origin,
            post_url,
            audiences[n - 1].actor,
            audiences[n - 1].inboxes,
        );
    }
}

/// The deliveries of a post are those that follow from what the URL library reads of the
/// post's URL and of each inbox.
pub proof fn lemma_plan_is_read(post_url: Seq<char>, audiences: Seq<AudienceView>)
    ensures
        plan_of(post_url, audiences) == plan_read_of(
            url_host_of(post_url),
            post_url,
            read_audiences(audiences),
        ),
{
    match url_host_of(post_url) {
        None => {},
        Some(origin) => {
            lemma_plan_upto_is_read(audiences.len(), origin, post_url, audiences);
        },
    }
}

/// The job for the announce of `actor` to the inbox `inbox`, whose host is `host`.
pub open spec fn job_for(post_url: Seq<char>, actor: ActorView, inbox: Seq<char>, host: Option<Seq<char>>) -> JobView {
    JobView {
        post_url,
        actor_id: actor.uri(),
        key_id: actor.key_id(),
        inbox_url: inbox,
        host: worker_key(host),
    }
}

/// Fan-out to two followers: a post with two actors, each followed by one inbox, the two
/// inboxes different and on hosts other than the post's, gets exactly two jobs: one for
/// each inbox, in the order of the actors, each for the actor that the inbox follows.
pub proof fn lemma_two_followers(
    origin: Option<Seq<char>>,
    post_url: Seq<char>,
    first: ActorView,
    first_inbox: Seq<char>,
    first_host: Option<Seq<char>>,
    second: ActorView,
    second_inbox: Seq<char>,
    second_host: Option<Seq<char>>,
)
    requires
        first_host != origin,
        second_host != origin,
        first_inbox != second_inbox,
    ensures
        plan_read_of(
            Some(origin),
            post_url,
            seq![
                ReadingView {
                    actor: first,
                    inboxes: seq![InboxView { url: first_inbox, host: Some(first_host) }],
                },
                ReadingView {
                    actor: second,
                    inboxes: seq![InboxView { url: second_inbox, host: Some(second_host) }],
                },
            ],
        ).jobs == seq![
            job_for(post_url, first, first_inbox, first_host),
            job_for(post_url, second, second_inbox, second_host),
        ],
{
    let readings = seq![
        ReadingView {
            actor: first,
            inboxes: seq![InboxView { url: first_inbox, host: Some(first_host) }],
        },
        ReadingView {
            actor: second,
            inboxes: seq![InboxView { url: second_inbox, host: Some(second_host) }],
        },
    ];
    reveal_with_fuel(plan_read_upto, 3);
    reveal_with_fuel(offer_read_upto, 2);
    let p0 = plan_read_upto(0, origin, post_url, readings);
    let p1 = plan_read_upto(1, origin, post_url, readings);
    let p2 = plan_read_upto(2, origin, post_url, readings);
    assert(!p0.seen.contains(first_inbox));
    assert(p1.seen =~= seq![first_inbox]);
    assert(p1.jobs =~= seq![job_for(post_url, first, first_inbox, first_host)]);
    assert(!p1.seen.contains(second_inbox));
    assert(p2.jobs =~= seq![
        job_for(post_url, first, first_inbox, first_host),
        job_for(post_url, second, second_inbox, second_host),
    ]);
}

} // verus!
