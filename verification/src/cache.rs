//! The per-URL score cache.
//!
//! A resolved score is kept under its canonical post URL for a fixed
//! time-to-live, in a cache of bounded capacity. The cache also carries
//! the single-flight set: the keys whose upstream fetch is under way. A
//! caller asking for an uncached key either starts the one fetch or
//! awaits the one in flight — the same key is never fetched twice
//! concurrently. A failed fetch caches nothing, so a later call retries
//! upstream.

use vstd::prelude::*;

verus! {

/// How many scores the cache holds at most.
pub const SCORE_CACHE_CAPACITY: usize = 1000;

/// How long a cached score is served: one hour.
pub const SCORE_CACHE_TTL_MS: u64 = 3600000;

/// One cached score: the canonical URL, the score, and the instant it
/// was stored.
pub struct CacheEntry {
    pub url: String,
    pub score: u64,
    pub stored_at_ms: u64,
}

/// What a lookup tells the caller to do.
#[derive(Clone, Copy, Debug, PartialEq, Eq, Structural)]
pub enum CacheLookup {
    /// The cached score, still fresh.
    Hit { score: u64 },
    /// Another caller is fetching this key: await its result.
    Wait,
    /// No usable entry and nobody fetching: this caller performs the one
    /// fetch.
    Fetch,
}

/// The score cache and its single-flight set.
pub struct ScoreCache {
    pub entries: Vec<CacheEntry>,
    pub in_flight: Vec<String>,
    pub capacity: usize,
    pub ttl_ms: u64,
}

/// An entry as a spec value: URL text, score, store instant.
pub type SpecEntry = (Seq<char>, u64, u64);

/// The first entry carrying `url`, if any.
pub open spec fn spec_find(es: Seq<SpecEntry>, url: Seq<char>) -> Option<SpecEntry>
    decreases es.len(),
{
    if es.len() == 0 {
        None
    } else if es[0].0 == url {
        Some(es[0])
    } else {
        spec_find(es.skip(1), url)
    }
}

/// The index of the entry carrying `url`; meaningful when the urls are
/// unique and some entry carries it.
pub open spec fn spec_entry_index(es: Seq<SpecEntry>, url: Seq<char>) -> int {
    choose|i: int| 0 <= i < es.len() && (#[trigger] es[i]).0 == url
}

/// Where an insert leaves the entries: an existing entry for the key is
/// replaced wholesale; otherwise the new entry is appended, evicting the
/// front entry when the cache is full.
pub open spec fn spec_insert(
    es: Seq<SpecEntry>,
    url: Seq<char>,
    score: u64,
    now_ms: u64,
    cap: int,
) -> Seq<SpecEntry> {
    if exists|i: int| 0 <= i < es.len() && (#[trigger] es[i]).0 == url {
        es.update(spec_entry_index(es, url), (url, score, now_ms))
    } else if es.len() >= cap {
        es.skip(1).push((url, score, now_ms))
    } else {
        es.push((url, score, now_ms))
    }
}

impl ScoreCache {
    /// The entries as spec values.
    pub open spec fn spec_entries(self) -> Seq<SpecEntry> {
        self.entries@.map(|i: int, e: CacheEntry| (e.url@, e.score, e.stored_at_ms))
    }

    /// The single-flight keys as texts.
    pub open spec fn spec_flights(self) -> Seq<Seq<char>> {
        self.in_flight@.map(|i: int, s: String| s@)
    }

    /// Well-formed: a positive capacity not exceeded, and no two entries
    /// for one URL.
    pub open spec fn wf(self) -> bool {
        &&& self.capacity >= 1
        &&& self.entries@.len() <= self.capacity
        &&& forall|i: int, j: int|
            0 <= i < j < self.spec_entries().len() ==> (#[trigger] self.spec_entries()[i]).0 != (
            #[trigger] self.spec_entries()[j]).0
    }

    /// An entry is fresh at `now_ms`: stored no later, and its
    /// time-to-live not yet over.
    pub open spec fn entry_fresh(self, e: SpecEntry, now_ms: u64) -> bool {
        e.2 <= now_ms && now_ms - e.2 < self.ttl_ms
    }

    /// What a lookup at `now_ms` answers: a fresh entry is a hit; else an
    /// in-flight key waits, and anything else fetches.
    pub open spec fn spec_lookup(self, url: Seq<char>, now_ms: u64) -> CacheLookup {
        match spec_find(self.spec_entries(), url) {
            Some(e) => if self.entry_fresh(e, now_ms) {
                CacheLookup::Hit { score: e.1 }
            } else if self.spec_flights().contains(url) {
                CacheLookup::Wait
            } else {
                CacheLookup::Fetch
            },
            None => if self.spec_flights().contains(url) {
                CacheLookup::Wait
            } else {
                CacheLookup::Fetch
            },
        }
    }

    /// An empty cache of the given bounds.
    pub fn new(capacity: usize, ttl_ms: u64) -> (c: ScoreCache)
        requires
            capacity >= 1,
        ensures
            c.wf(),
            c.spec_entries() == Seq::<SpecEntry>::empty(),
            c.spec_flights() == Seq::<Seq<char>>::empty(),
            c.capacity == capacity,
            c.ttl_ms == ttl_ms,
    {
        let c = ScoreCache { entries: Vec::new(), in_flight: Vec::new(), capacity, ttl_ms };
        proof {
            assert(c.spec_entries() =~= Seq::<SpecEntry>::empty());
            assert(c.spec_flights() =~= Seq::<Seq<char>>::empty());
        }
        c
    }

    /// The index of the entry carrying `url`, if any.
    fn find_entry(&self, url: &String) -> (r: Option<usize>)
        ensures
            match r {
                Some(i) => 0 <= i < self.spec_entries().len() && (self.spec_entries()[
                i as int]).0 == url@ && spec_find(self.spec_entries(), url@) == Some(
                    self.spec_entries()[i as int],
                ),
                None => spec_find(self.spec_entries(), url@) is None,
            },
    {
        proof {
            assert(self.spec_entries().skip(0) =~= self.spec_entries());
        }
        let n = self.entries.len();
        let mut i: usize = 0;
        while i < n
            invariant
                0 <= i <= n == self.entries@.len(),
                spec_find(self.spec_entries(), url@) == spec_find(
                    self.spec_entries().skip(i as int),
                    url@,
                ),
            decreases n - i,
        {
            proof {
                assert(self.spec_entries().skip(i as int)[0] == self.spec_entries()[i as int]);
                assert(self.spec_entries().skip(i as int).skip(1) =~= self.spec_entries().skip(
                    i + 1,
                ));
            }
            if self.entries[i].url.eq(url) {
                return Some(i);
            }
            i = i + 1;
        }
        proof {
            assert(self.spec_entries().skip(n as int) =~= Seq::<SpecEntry>::empty());
        }
        None
    }

    /// Asks for `url` at `now_ms`. A fresh score answers at once; an
    /// uncached key is claimed for this caller exactly when nobody else
    /// is fetching it, and the claim is recorded.
    pub fn begin_get(&mut self, url: &String, now_ms: u64) -> (r: CacheLookup)
        requires
            old(self).wf(),
        ensures
            final(self).wf(),
            r == old(self).spec_lookup(url@, now_ms),
            final(self).capacity == old(self).capacity,
            final(self).ttl_ms == old(self).ttl_ms,
            final(self).spec_entries() == old(self).spec_entries(),
            final(self).spec_flights() == if r is Fetch {
                old(self).spec_flights().push(url@)
            } else {
                old(self).spec_flights()
            },
    {
        match self.find_entry(url) {
            Some(i) => {
                let e = &self.entries[i];
                if e.stored_at_ms <= now_ms && now_ms - e.stored_at_ms < self.ttl_ms {
                    return CacheLookup::Hit { score: e.score };
                }
            },
            None => {},
        }
        // No fresh entry: wait on the in-flight fetch or claim the key.
        if self.flight_contains(url) {
            CacheLookup::Wait
        } else {
            self.in_flight.push(url.clone());
            proof {
                assert(self.spec_flights() =~= old(self).spec_flights().push(url@));
            }
            CacheLookup::Fetch
        }
    }

    /// Whether `url` is being fetched.
    fn flight_contains(&self, url: &String) -> (r: bool)
        ensures
            r == self.spec_flights().contains(url@),
    {
        let n = self.in_flight.len();
        let mut i: usize = 0;
        while i < n
            invariant
                0 <= i <= n == self.in_flight@.len(),
                forall|j: int| 0 <= j < i ==> self.spec_flights()[j] != url@,
            decreases n - i,
        {
            if self.in_flight[i].eq(url) {
                proof {
                    assert(self.spec_flights()[i as int] == url@);
                }
                return true;
            }
            i = i + 1;
        }
        proof {
            if self.spec_flights().contains(url@) {
                let k = choose|k: int|
                    0 <= k < self.spec_flights().len() && self.spec_flights()[k] == url@;
                assert(self.spec_flights()[k] != url@);
            }
        }
        false
    }

    /// Records the outcome of the one fetch for `url`: the claim is
    /// released, and a resolved score is stored at `now_ms` — replacing
    /// the key's old entry, or evicting the front entry of a full cache.
    /// A failed fetch stores nothing.
    pub fn complete_fetch(&mut self, url: &String, score: Option<u64>, now_ms: u64)
        requires
            old(self).wf(),
        ensures
            final(self).wf(),
            final(self).capacity == old(self).capacity,
            final(self).ttl_ms == old(self).ttl_ms,
            final(self).spec_flights() == spec_drop_flight(old(self).spec_flights(), url@),
            final(self).spec_entries() == match score {
                Some(sc) => spec_insert(
                    old(self).spec_entries(),
                    url@,
                    sc,
                    now_ms,
                    old(self).capacity as int,
                ),
                None => old(self).spec_entries(),
            },
    {
        self.remove_flight(url);
        match score {
            Some(sc) => self.insert_score(url, sc, now_ms),
            None => {},
        }
    }

    /// The position of `url` among the in-flight keys, if any; the first
    /// one when several.
    fn flight_index(&self, url: &String) -> (r: Option<usize>)
        ensures
            match r {
                Some(i) => 0 <= i < self.spec_flights().len() && self.spec_flights()[i as int]
                    == url@ && forall|j: int| 0 <= j < i ==> self.spec_flights()[j] != url@,
                None => forall|j: int|
                    0 <= j < self.spec_flights().len() ==> self.spec_flights()[j] != url@,
            },
    {
        let n = self.in_flight.len();
        let mut i: usize = 0;
        while i < n
            invariant
                0 <= i <= n == self.in_flight@.len(),
                forall|j: int| 0 <= j < i ==> self.spec_flights()[j] != url@,
            decreases n - i,
        {
            if self.in_flight[i].eq(url) {
                proof {
                    assert(self.spec_flights()[i as int] == url@);
                }
                return Some(i);
            }
            i = i + 1;
        }
        None
    }

    /// Releases the single-flight claim on `url`.
    fn remove_flight(&mut self, url: &String)
        ensures
            final(self).spec_flights() == spec_drop_flight(old(self).spec_flights(), url@),
            final(self).spec_entries() == old(self).spec_entries(),
            final(self).capacity == old(self).capacity,
            final(self).ttl_ms == old(self).ttl_ms,
    {
        match self.flight_index(url) {
            Some(i) => {
                proof {
                    lemma_drop_flight_at(self.spec_flights(), url@, i as int);
                }
                self.in_flight.remove(i);
                proof {
                    assert(final(self).spec_flights() =~= old(self).spec_flights().take(i as int)
                        + old(self).spec_flights().skip(i + 1));
                    assert(final(self).spec_entries() =~= old(self).spec_entries());
                }
            },
            None => {
                proof {
                    lemma_drop_flight_absent(self.spec_flights(), url@);
                    assert(final(self).spec_entries() =~= old(self).spec_entries());
                }
            },
        }
    }

    /// Stores a resolved score under its key.
    fn insert_score(&mut self, url: &String, score: u64, now_ms: u64)
        requires
            old(self).wf(),
        ensures
            final(self).wf(),
            final(self).capacity == old(self).capacity,
            final(self).ttl_ms == old(self).ttl_ms,
            final(self).in_flight == old(self).in_flight,
            final(self).spec_entries() == spec_insert(
                old(self).spec_entries(),
                url@,
                score,
                now_ms,
                old(self).capacity as int,
            ),
    {
        let n = self.entries.len();
        let mut i: usize = 0;
        while i < n
            invariant
                *self == *old(self),
                self.wf(),
                0 <= i <= n == self.entries@.len(),
                forall|j: int| 0 <= j < i ==> (#[trigger] self.spec_entries()[j]).0 != url@,
            decreases n - i,
        {
            if self.entries[i].url.eq(url) {
                proof {
                    assert((self.spec_entries()[i as int]).0 == url@);
                    let k = spec_entry_index(self.spec_entries(), url@);
                    assert(0 <= k < self.spec_entries().len() && (self.spec_entries()[k]).0
                        == url@);
                    if k != i as int {
                        if k < i as int {
                            assert((self.spec_entries()[k]).0 != (self.spec_entries()[
                            i as int]).0);
                        } else {
                            assert((self.spec_entries()[i as int]).0 != (self.spec_entries()[
                            k]).0);
                        }
                    }
                }
                self.entries.set(i, CacheEntry { url: url.clone(), score, stored_at_ms: now_ms });
                proof {
                    assert(final(self).spec_entries() =~= old(self).spec_entries().update(
                        i as int,
                        (url@, score, now_ms),
                    ));
                }
                return ;
            }
            i = i + 1;
        }
        proof {
            if exists|k: int|
                0 <= k < self.spec_entries().len() && (#[trigger] self.spec_entries()[k]).0
                    == url@ {
                let k = choose|k: int|
                    0 <= k < self.spec_entries().len() && (#[trigger] self.spec_entries()[k]).0
                        == url@;
                assert((self.spec_entries()[k]).0 != url@);
            }
        }
        if self.entries.len() >= self.capacity {
            self.entries.remove(0);
            self.entries.push(CacheEntry { url: url.clone(), score, stored_at_ms: now_ms });
            proof {
                assert(final(self).spec_entries() =~= old(self).spec_entries().skip(1).push(
                    (url@, score, now_ms),
                ));
            }
        } else {
            self.entries.push(CacheEntry { url: url.clone(), score, stored_at_ms: now_ms });
            proof {
                assert(final(self).spec_entries() =~= old(self).spec_entries().push(
                    (url@, score, now_ms),
                ));
            }
        }
    }
}

/// The single-flight set with the first occurrence of `url` removed.
pub open spec fn spec_drop_flight(fl: Seq<Seq<char>>, url: Seq<char>) -> Seq<Seq<char>>
    decreases fl.len(),
{
    if fl.len() == 0 {
        fl
    } else if fl[0] == url {
        fl.skip(1)
    } else {
        seq![fl[0]] + spec_drop_flight(fl.skip(1), url)
    }
}

/// Dropping the first occurrence of `url`, found at `i`, splices the
/// sequence around `i`.
proof fn lemma_drop_flight_at(fl: Seq<Seq<char>>, url: Seq<char>, i: int)
    requires
        0 <= i < fl.len(),
        fl[i] == url,
        forall|j: int| 0 <= j < i ==> fl[j] != url,
    ensures
        spec_drop_flight(fl, url) == fl.take(i) + fl.skip(i + 1),
    decreases i,
{
    if i == 0 {
        assert(fl.take(0) + fl.skip(1) =~= fl.skip(1));
    } else {
        let tail = fl.skip(1);
        assert(tail[i - 1] == fl[i]);
        assert(forall|j: int| 0 <= j < i - 1 ==> #[trigger] tail[j] == fl[j + 1]);
        lemma_drop_flight_at(tail, url, i - 1);
        assert(spec_drop_flight(fl, url) == seq![fl[0]] + (tail.take(i - 1) + tail.skip(i)));
        assert(seq![fl[0]] + (tail.take(i - 1) + tail.skip(i)) =~= fl.take(i) + fl.skip(i + 1));
    }
}

/// Dropping a key that is not present changes nothing.
proof fn lemma_drop_flight_absent(fl: Seq<Seq<char>>, url: Seq<char>)
    requires
        forall|j: int| 0 <= j < fl.len() ==> fl[j] != url,
    ensures
        spec_drop_flight(fl, url) == fl,
    decreases fl.len(),
{
    if fl.len() > 0 {
        let tail = fl.skip(1);
        assert(forall|j: int| 0 <= j < tail.len() ==> #[trigger] tail[j] == fl[j + 1]);
        lemma_drop_flight_absent(tail, url);
        assert(seq![fl[0]] + tail =~= fl);
    }
}

/// Law (cache de-duplication): when a lookup has claimed an uncached key
/// — it was told to fetch, and its claim is recorded — no concurrent
/// lookup for the same key is told to fetch too, at any instant: the one
/// upstream fetch is shared.
pub proof fn lemma_single_flight(
    before: ScoreCache,
    after: ScoreCache,
    url: Seq<char>,
    now1: u64,
    now2: u64,
)
    requires
        before.wf(),
        before.spec_lookup(url, now1) is Fetch,
        after.spec_entries() == before.spec_entries(),
        after.spec_flights() == before.spec_flights().push(url),
        after.ttl_ms == before.ttl_ms,
    ensures
        !(after.spec_lookup(url, now2) is Fetch),
{
    assert(after.spec_flights()[after.spec_flights().len() - 1] == url);
    assert(after.spec_flights().contains(url));
}

} // verus!
