use std::sync::Arc;
use vstd::prelude::*;
use vstd::string::StringExecFns;
use crate::activitypub::Actor;
use crate::error::Error;
use crate::text::same_text;

verus! {

/// `lru::LruCache`, the bounded cache that forgets what was used least recently. Nothing is
/// known of a value of it but what `lru_entries` and `lru_cap` name.
#[verifier::external_type_specification]
#[verifier::external_body]
#[verifier::reject_recursive_types(K)]
#[verifier::reject_recursive_types(V)]
#[verifier::reject_recursive_types(S)]
pub struct ExLruCache<K, V, S>(lru::LruCache<K, V, S>);

/// `lru::DefaultHasher`, the hasher of a cache that was made with `LruCache::new`.
#[verifier::external_type_specification]
#[verifier::external_body]
pub struct ExDefaultHasher(lru::DefaultHasher);

/// What resolving an actor came to: its document, or why there is none.
pub type Resolved = Result<Arc<Actor>, Error>;

/// What the cache holds: each key with its value, the most recently used first.
pub uninterp spec fn lru_entries(cache: lru::LruCache<String, Resolved>) -> Seq<(Seq<char>, Resolved)>;

/// The number of entries that the cache was made to hold.
pub uninterp spec fn lru_cap(cache: lru::LruCache<String, Resolved>) -> nat;

/// The index of the first entry with the key.
pub open spec fn key_index<V>(entries: Seq<(Seq<char>, V)>, key: Seq<char>) -> Option<int>
    decreases entries.len(),
{
    if entries.len() == 0 {
        None
    } else if entries[0].0 == key {
        Some(0)
    } else {
        match key_index(entries.drop_first(), key) {
            Some(i) => Some(i + 1),
            None => None,
        }
    }
}

/// The entries after the one at `i` was used: it stands first, the others keep their order.
pub open spec fn touched<V>(entries: Seq<(Seq<char>, V)>, i: int) -> Seq<(Seq<char>, V)> {
    seq![entries[i]] + entries.remove(i)
}

/// The entries after `key` was given `value`, in a cache that holds at most `cap`: the new
/// entry stands first; an old entry with the key is gone, else, in a full cache, the entry
/// that was used least recently.
pub open spec fn inserted<V>(entries: Seq<(Seq<char>, V)>, cap: nat, key: Seq<char>, value: V) -> Seq<
    (Seq<char>, V),
> {
    seq![(key, value)] + (match key_index(entries, key) {
        Some(i) => entries.remove(i),
        None => if entries.len() < cap {
            entries
        } else {
            entries.drop_last()
        },
    })
}

/// `LruCache::new`: an empty cache that holds at most `cap` entries.
#[verifier::external_body]
pub(crate) fn lru_new(cap: usize) -> (r: lru::LruCache<String, Resolved>)
    requires
        cap > 0,
    ensures
        lru_entries(r) == Seq::<(Seq<char>, Resolved)>::empty(),
        lru_cap(r) == cap,
{
    lru::LruCache::new(std::num::NonZeroUsize::new(cap).unwrap())
}

/// `LruCache::get`: a copy of the value of the key, which from now on is the most recently
/// used; `None`, and nothing changed, where the cache does not hold the key.
#[verifier::external_body]
pub(crate) fn lru_get(cache: &mut lru::LruCache<String, Resolved>, key: &str) -> (r: Option<Resolved>)
    ensures
        lru_cap(*final(cache)) == lru_cap(*old(cache)),
        match key_index(lru_entries(*old(cache)), key@) {
            Some(i) => r == Some(lru_entries(*old(cache))[i].1) && lru_entries(*final(cache)) == touched(
                lru_entries(*old(cache)),
                i,
            ),
            None => r is None && lru_entries(*final(cache)) == lru_entries(*old(cache)),
        },
{
    cache.get(key).cloned()
}

/// `LruCache::put`: gives the key the value and makes it the most recently used. Where the
/// key is new and the cache is full, the entry that was used least recently leaves.
#[verifier::external_body]
pub(crate) fn lru_put(cache: &mut lru::LruCache<String, Resolved>, key: String, value: Resolved)
    ensures
        lru_cap(*final(cache)) == lru_cap(*old(cache)),
        lru_entries(*final(cache)) == inserted(
            lru_entries(*old(cache)),
            lru_cap(*old(cache)),
            key@,
            value,
        ),
{
    cache.put(key, value);
}

/// `key_index` is `None` where no entry has the key, else the first index that has it.
pub proof fn lemma_key_index<V>(entries: Seq<(Seq<char>, V)>, key: Seq<char>)
    ensures
        match key_index(entries, key) {
            Some(i) => 0 <= i < entries.len() && entries[i].0 == key && forall|j: int|
                0 <= j < i ==> (#[trigger] entries[j]).0 != key,
            None => forall|j: int| 0 <= j < entries.len() ==> (#[trigger] entries[j]).0 != key,
        },
    decreases entries.len(),
{
    if entries.len() == 0 || entries[0].0 == key {
    } else {
        let rest = entries.drop_first();
        lemma_key_index(rest, key);
        match key_index(rest, key) {
            Some(i) => {
                assert(entries[i + 1] == rest[i]);
                assert forall|j: int| 0 <= j < i + 1 implies (#[trigger] entries[j]).0 != key by {
                    if j > 0 {
                        assert(entries[j] == rest[j - 1]);
                    }
                }
            },
            None => {
                assert forall|j: int| 0 <= j < entries.len() implies (#[trigger] entries[j]).0
                    != key by {
                    if j > 0 {
                        assert(entries[j] == rest[j - 1]);
                    }
                }
            },
        }
    }
}

/// The resolves of one key that wait for its fetch to end.
pub struct Queue<W> {
    pub key: String,
    pub waiters: Vec<W>,
}

/// What a caller who resolves an actor is to do.
pub enum Lookup<W> {
    /// The cache holds the result; the waiter is handed back unused.
    Hit(Resolved, W),
    /// Nobody is fetching the actor: the caller starts the fetch, and waits like the others.
    Fetch,
    /// Somebody is fetching the actor: the caller waits.
    Wait,
}

/// The resolver's state as plain values: the cache, and for each key that is being fetched
/// the waiters in the order in which they came.
pub struct CacheView<W> {
    pub entries: Seq<(Seq<char>, Resolved)>,
    pub cap: nat,
    pub pending: Seq<(Seq<char>, Seq<W>)>,
}

/// A cache of resolved actors in which concurrent resolves of one actor share one fetch.
pub struct ActorCache<W> {
    cache: lru::LruCache<String, Resolved>,
    queues: Vec<Queue<W>>,
}

/// The queues as plain values.
pub open spec fn queue_views<W>(queues: Seq<Queue<W>>) -> Seq<(Seq<char>, Seq<W>)> {
    Seq::new(queues.len(), |i: int| (queues[i].key@, queues[i].waiters@))
}

impl<W> View for ActorCache<W> {
    type V = CacheView<W>;

    closed spec fn view(&self) -> CacheView<W> {
        CacheView {
            entries: lru_entries(self.cache),
            cap: lru_cap(self.cache),
            pending: queue_views(self.queues@),
        }
    }
}

impl<W> CacheView<W> {
    /// Whether the cache holds a result for the key.
    pub open spec fn cached(self, key: Seq<char>) -> bool {
        key_index(self.entries, key) is Some
    }

    /// Whether the key is being fetched.
    pub open spec fn fetching(self, key: Seq<char>) -> bool {
        key_index(self.pending, key) is Some
    }

    /// Those who wait for the key, in the order in which they came.
    pub open spec fn waiters(self, key: Seq<char>) -> Seq<W> {
        match key_index(self.pending, key) {
            Some(i) => self.pending[i].1,
            None => Seq::empty(),
        }
    }

    /// The state after a resolve of `key` by `waiter`.
    pub open spec fn after_get(self, key: Seq<char>, waiter: W) -> CacheView<W> {
        match key_index(self.entries, key) {
            Some(i) => CacheView { entries: touched(self.entries, i), ..self },
            None => match key_index(self.pending, key) {
                Some(j) => CacheView {
                    pending: self.pending.update(j, (key, self.pending[j].1.push(waiter))),
                    ..self
                },
                None => CacheView { pending: self.pending.push((key, seq![waiter])), ..self },
            },
        }
    }

    /// What the caller of a resolve of `key` is told.
    pub open spec fn get_outcome(self, key: Seq<char>, waiter: W) -> Lookup<W> {
        match key_index(self.entries, key) {
            Some(i) => Lookup::Hit(self.entries[i].1, waiter),
            None => if self.fetching(key) {
                Lookup::Wait
            } else {
                Lookup::Fetch
            },
        }
    }

    /// The state after the fetch of `key` ended with `result`: the cache holds it, and
    /// nobody waits for the key.
    pub open spec fn after_complete(self, key: Seq<char>, result: Resolved) -> CacheView<W> {
        CacheView {
            entries: inserted(self.entries, self.cap, key, result),
            cap: self.cap,
            pending: match key_index(self.pending, key) {
                Some(j) => self.pending.remove(j),
                None => self.pending,
            },
        }
    }

    /// The state after each of the first `n` waiters resolved `key`, in their order.
    pub open spec fn after_gets(self, key: Seq<char>, waiters: Seq<W>, n: nat) -> CacheView<W>
        decreases n,
    {
        if n == 0 {
            self
        } else {
            self.after_gets(key, waiters, (n - 1) as nat).after_get(key, waiters[n - 1])
        }
    }

    /// The number of the first `n` waiters that were told to fetch.
    pub open spec fn fetches(self, key: Seq<char>, waiters: Seq<W>, n: nat) -> nat
        decreases n,
    {
        if n == 0 {
            0
        } else {
            let before = self.after_gets(key, waiters, (n - 1) as nat);
            self.fetches(key, waiters, (n - 1) as nat) + if before.get_outcome(key, waiters[n - 1])
                is Fetch {
                1nat
            } else {
                0nat
            }
        }
    }
}

/// Single flight: when any number of callers resolve a key that is neither cached nor being
/// fetched, before its fetch has ended, exactly one of them is told to fetch; all of them
/// wait, in the order in which they came, and the end of the fetch hands all of them back.
pub proof fn lemma_single_flight<W>(state: CacheView<W>, key: Seq<char>, waiters: Seq<W>, n: nat)
    requires
        !state.cached(key),
        !state.fetching(key),
        1 <= n <= waiters.len(),
    ensures
        state.fetches(key, waiters, n) == 1,
        !state.after_gets(key, waiters, n).cached(key),
        state.after_gets(key, waiters, n).fetching(key),
        state.after_gets(key, waiters, n).waiters(key) == waiters.take(n as int),
        state.after_gets(key, waiters, n).entries == state.entries,
    decreases n,
{
    let before = state.after_gets(key, waiters, (n - 1) as nat);
    let after = state.after_gets(key, waiters, n);
    if n == 1 {
        assert(before == state);
        lemma_key_index(state.pending, key);
        let p = state.pending.push((key, seq![waiters[0]]));
        assert(after.pending == p);
        lemma_key_index(p, key);
        match key_index(p, key) {
            Some(i) => {
                if i < state.pending.len() {
                    assert(p[i] == state.pending[i]);
                }
                assert(p[i].1 =~= waiters.take(1));
            },
            None => {
                assert(p[p.len() - 1].0 == key);
            },
        }
        assert(state.fetches(key, waiters, 0) == 0);
    } else {
        lemma_single_flight(state, key, waiters, (n - 1) as nat);
        lemma_key_index(before.pending, key);
        let j = key_index(before.pending, key)->0;
        let p = before.pending.update(j, (key, before.pending[j].1.push(waiters[n - 1])));
        assert(after.pending == p);
        lemma_key_index(p, key);
        match key_index(p, key) {
            Some(i) => {
                if i < j {
                    assert(p[i] == before.pending[i]);
                } else if j < i {
                    assert(p[j].0 == key);
                }
                assert(p[i].1 =~= waiters.take(n as int));
            },
            None => {
                assert(p[j].0 == key);
            },
        }
    }
}

/// What the end of a fetch leaves: the result is cached, to be found by the next resolve,
/// whether it is a document or an error; and nobody waits for the key.
pub proof fn lemma_complete_caches<W>(state: CacheView<W>, key: Seq<char>, result: Resolved, waiter: W)
    requires
        state.cap > 0,
        forall|i: int, j: int|
            0 <= i < j < state.pending.len() ==> (#[trigger] state.pending[i]).0 != (
            #[trigger] state.pending[j]).0,
    ensures
        state.after_complete(key, result).cached(key),
        state.after_complete(key, result).get_outcome(key, waiter) == Lookup::Hit(result, waiter),
        !state.after_complete(key, result).fetching(key),
{
    let after = state.after_complete(key, result);
    assert(after.entries[0] == (key, result));
    lemma_key_index(after.entries, key);
    lemma_key_index(state.pending, key);
    lemma_key_index(after.pending, key);
    match key_index(state.pending, key) {
        Some(j) => {
            if after.fetching(key) {
                let i = key_index(after.pending, key)->0;
                if i < j {
                    assert(after.pending[i] == state.pending[i]);
                } else {
                    assert(after.pending[i] == state.pending[i + 1]);
                }
            }
        },
        None => {},
    }
}

impl<W> ActorCache<W> {
    /// What is kept of the resolver's state: the cache holds each key once and no more
    /// entries than it was made for, and each key that is fetched has one queue.
    pub open spec fn wf(self) -> bool {
        &&& self@.cap > 0
        &&& self@.entries.len() <= self@.cap
        &&& forall|i: int, j: int|
            0 <= i < j < self@.entries.len() ==> (#[trigger] self@.entries[i]).0 != (
            #[trigger] self@.entries[j]).0
        &&& forall|i: int, j: int|
            0 <= i < j < self@.pending.len() ==> (#[trigger] self@.pending[i]).0 != (
            #[trigger] self@.pending[j]).0
    }

    /// An empty cache for the results of 64 actors.
    pub fn new() -> (r: Self)
        ensures
            r.wf(),
            r@.entries.len() == 0,
            r@.pending.len() == 0,
            r@.cap == 64,
    {
        ActorCache { cache: lru_new(64), queues: Vec::new() }
    }

    /// Whether the key is being fetched.
    pub fn is_fetching(&self, key: &str) -> (r: bool)
        ensures
            r == self@.fetching(key@),
    {
        self.queue_of(key).is_some()
    }

    /// The index of the queue of the key.
    fn queue_of(&self, key: &str) -> (r: Option<usize>)
        ensures
            match r {
                Some(j) => key_index(self@.pending, key@) == Some(j as int) && j < self.queues@.len(),
                None => key_index(self@.pending, key@) is None,
            },
    {
        let mut j: usize = 0;
        while j < self.queues.len()
            invariant
                j <= self.queues@.len(),
                forall|i: int| 0 <= i < j ==> (#[trigger] self@.pending[i]).0 != key@,
            decreases self.queues@.len() - j,
        {
            if same_text(self.queues[j].key.as_str(), key) {
                proof {
                    lemma_key_index(self@.pending, key@);
                    assert(self@.pending[j as int].0 == key@);
                }
                return Some(j);
            }
            j += 1;
        }
        proof {
            lemma_key_index(self@.pending, key@);
        }
        None
    }

    /// Resolves `key` for `waiter`. Where the cache holds the result, the caller gets it.
    /// Else the waiter is queued, and the caller is told to fetch if and only if nobody is
    /// fetching the key yet.
    pub fn get(&mut self, key: &str, waiter: W) -> (r: Lookup<W>)
        requires
            old(self).wf(),
        ensures
            final(self).wf(),
            final(self)@ == old(self)@.after_get(key@, waiter),
            r == old(self)@.get_outcome(key@, waiter),
    {
        let ghost before = self@;
        proof {
            lemma_key_index(before.entries, key@);
        }
        match lru_get(&mut self.cache, key) {
            Some(result) => {
                proof {
                    let i = key_index(before.entries, key@)->0;
                    lemma_touched_distinct(before.entries, i);
                }
                Lookup::Hit(result, waiter)
            },
            None => match self.queue_of(key) {
                Some(j) => {
                    let ghost queues = self.queues@;
                    let mut queue = self.queues.remove(j);
                    queue.waiters.push(waiter);
                    self.queues.insert(j, queue);
                    proof {
                        lemma_key_index(before.pending, key@);
                        assert(before.pending[j as int] == (queues[j as int].key@, queues[j as int].waiters@));
                        let next = before.pending.update(
                            j as int,
                            (key@, before.pending[j as int].1.push(waiter)),
                        );
                        assert forall|i: int| 0 <= i < next.len() implies self@.pending[i] == next[i] by {
                            if i != j {
                                assert(self.queues@[i] == queues[i]);
                                assert(before.pending[i] == (queues[i].key@, queues[i].waiters@));
                            }
                        }
                        assert(self@.pending =~= next);
                        assert forall|a: int, b: int| 0 <= a < b < next.len() implies (#[trigger] next[a]).0 != (
                        #[trigger] next[b]).0 by {
                            assert(next[a].0 == before.pending[a].0);
                            assert(next[b].0 == before.pending[b].0);
                        }
                    }
                    Lookup::Wait
                },
                None => {
                    let mut waiters: Vec<W> = Vec::new();
                    waiters.push(waiter);
                    self.queues.push(Queue { key: String::from_str(key), waiters });
                    proof {
                        lemma_key_index(before.pending, key@);
                        assert(waiters@ =~= seq![waiter]);
                        assert(self@.pending =~= before.pending.push((key@, seq![waiter])));
                    }
                    Lookup::Fetch
                },
            },
        }
    }

    /// Ends the fetch of `key` with `result`: the cache holds the result from now on, and
    /// those who waited for the key are handed back, in the order in which they came, to be
    /// told the result. Nobody waits for the key any more.
    pub fn complete(&mut self, key: &str, result: Resolved) -> (r: Vec<W>)
        requires
            old(self).wf(),
        ensures
            final(self).wf(),
            final(self)@ == old(self)@.after_complete(key@, result),
            r@ == old(self)@.waiters(key@),
    {
        let ghost before = self@;
        proof {
            lemma_inserted_distinct(before.entries, before.cap, key@, result);
        }
        lru_put(&mut self.cache, String::from_str(key), result);
        assert(self@.pending == before.pending);
        match self.queue_of(key) {
            Some(j) => {
                let queue = self.queues.remove(j);
                proof {
                    let next = before.pending.remove(j as int);
                    assert(self@.pending =~= next);
                    assert forall|a: int, b: int| 0 <= a < b < next.len() implies (#[trigger] next[a]).0 != (
                    #[trigger] next[b]).0 by {
                        let x = if a < j { a } else { a + 1 };
                        let y = if b < j { b } else { b + 1 };
                        assert(next[a] == before.pending[x]);
                        assert(next[b] == before.pending[y]);
                    }
                }
                queue.waiters
            },
            None => Vec::new(),
        }
    }
}

/// Using an entry leaves each key once.
pub proof fn lemma_touched_distinct<V>(entries: Seq<(Seq<char>, V)>, i: int)
    requires
        0 <= i < entries.len(),
        forall|a: int, b: int|
            0 <= a < b < entries.len() ==> (#[trigger] entries[a]).0 != (#[trigger] entries[b]).0,
    ensures
        touched(entries, i).len() == entries.len(),
        forall|a: int, b: int|
            0 <= a < b < touched(entries, i).len() ==> (#[trigger] touched(entries, i)[a]).0 != (
            #[trigger] touched(entries, i)[b]).0,
{
    let t = touched(entries, i);
    let origin = |a: int| if a == 0 { i } else if a <= i { a - 1 } else { a };
    assert forall|a: int, b: int| 0 <= a < b < t.len() implies (#[trigger] t[a]).0 != (#[trigger] t[b]).0 by {
        assert(t[a] == entries[origin(a)]);
        assert(t[b] == entries[origin(b)]);
        assert(origin(a) != origin(b));
        if origin(a) < origin(b) {
        } else {
        }
    }
}

/// Giving a key a value leaves each key once, and no more entries than the cache holds.
pub proof fn lemma_inserted_distinct<V>(entries: Seq<(Seq<char>, V)>, cap: nat, key: Seq<char>, value: V)
    requires
        cap > 0,
        entries.len() <= cap,
        forall|a: int, b: int|
            0 <= a < b < entries.len() ==> (#[trigger] entries[a]).0 != (#[trigger] entries[b]).0,
    ensures
        inserted(entries, cap, key, value).len() <= cap,
        forall|a: int, b: int|
            0 <= a < b < inserted(entries, cap, key, value).len() ==> (#[trigger] inserted(
                entries,
                cap,
                key,
                value,
            )[a]).0 != (#[trigger] inserted(entries, cap, key, value)[b]).0,
{
    let t = inserted(entries, cap, key, value);
    lemma_key_index(entries, key);
    match key_index(entries, key) {
        Some(i) => {
            let origin = |a: int| if a <= i { a - 1 } else { a };
            assert forall|a: int, b: int| 0 <= a < b < t.len() implies (#[trigger] t[a]).0 != (
            #[trigger] t[b]).0 by {
                assert(t[b] == entries[origin(b)]);
                if a > 0 {
                    assert(t[a] == entries[origin(a)]);
                } else {
                    if origin(b) < i {
                    } else {
                    }
                }
            }
        },
        None => {
            assert forall|a: int, b: int| 0 <= a < b < t.len() implies (#[trigger] t[a]).0 != (
            #[trigger] t[b]).0 by {
                assert(t[b] == entries[b - 1]);
                if a > 0 {
                    assert(t[a] == entries[a - 1]);
                }
            }
        },
    }
}

} // verus!
