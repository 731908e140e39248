//! A bounded cache of link previews.
//!
//! Successes stay for ten minutes, failures for one, and when the cache is full the entry that
//! was fetched first makes room.

use vstd::prelude::*;

use crate::clock;
use crate::preview_data::{LinkPreviewResult, PreviewResultView};
use crate::preview_data;
use crate::text;

verus! {

/// How long a fetched preview stays valid, in nanoseconds (ten minutes).
pub const CACHE_TTL_NANOS: u128 = 600_000_000_000;

/// How long a failure is remembered, in nanoseconds (one minute).
pub const NEGATIVE_CACHE_TTL_NANOS: u128 = 60_000_000_000;

/// The most entries that the cache holds.
pub const MAX_CACHE_SIZE: usize = 500;

/// A cached result with the time at which it was stored.
#[derive(Debug)]
struct CacheEntry {
    url: String,
    data: LinkPreviewResult,
    fetched_at: u128,
}

/// What the cache knows of a URL.
pub struct CachedView {
    pub data: PreviewResultView,
    pub fetched_at: int,
}

impl CacheEntry {
    spec fn cached(self) -> CachedView {
        CachedView { data: self.data@, fetched_at: self.fetched_at as int }
    }
}

/// A cache of link previews, keyed by URL.
#[derive(Debug)]
pub struct LinkPreviewCache {
    entries: Vec<CacheEntry>,
    origin: std::time::Instant,
}

/// How long a result of this kind stays valid.
pub open spec fn ttl_of(data: PreviewResultView) -> int {
    match data {
        PreviewResultView::Success(_) => CACHE_TTL_NANOS as int,
        PreviewResultView::Error(_) => NEGATIVE_CACHE_TTL_NANOS as int,
        PreviewResultView::Pending => 0,
    }
}

/// The entry is younger at time `now` than its kind may get.
pub open spec fn is_fresh(entry: CachedView, now: int) -> bool {
    let age = if now >= entry.fetched_at {
        now - entry.fetched_at
    } else {
        0
    };
    age < ttl_of(entry.data)
}

/// What a lookup at time `now` gives.
pub open spec fn lookup(
    map: Map<Seq<char>, CachedView>,
    url: Seq<char>,
    now: int,
) -> Option<PreviewResultView> {
    if map.dom().contains(url) && is_fresh(map[url], now) {
        Some(map[url].data)
    } else {
        None
    }
}

/// No entry was fetched before that of `url`.
pub open spec fn is_oldest(map: Map<Seq<char>, CachedView>, url: Seq<char>) -> bool {
    &&& map.dom().contains(url)
    &&& forall|other: Seq<char>| #[trigger]
        map.dom().contains(other) ==> map[url].fetched_at <= map[other].fetched_at
}

/// The entries that are fresh at time `now`.
pub open spec fn fresh_only(map: Map<Seq<char>, CachedView>, now: int) -> Map<
    Seq<char>,
    CachedView,
> {
    map.restrict(Set::new(|url: Seq<char>| map.dom().contains(url) && is_fresh(map[url], now)))
}

/// `after` is `before` with `data` stored for `url` at time `now`.
pub open spec fn is_insertion(
    before: Map<Seq<char>, CachedView>,
    after: Map<Seq<char>, CachedView>,
    url: Seq<char>,
    data: PreviewResultView,
    now: int,
) -> bool {
    let entry = CachedView { data, fetched_at: now };
    if data is Pending {
        after == before
    } else if before.dom().contains(url) || before.len() < MAX_CACHE_SIZE {
        after == before.insert(url, entry)
    } else {
        exists|oldest: Seq<char>| #[trigger]
            is_oldest(before, oldest) && after == before.remove(oldest).insert(url, entry)
    }
}

spec fn has_url(entries: Seq<CacheEntry>, url: Seq<char>) -> bool {
    exists|i: int| 0 <= i < entries.len() && (#[trigger] entries[i]).url@ == url
}

spec fn place_of(entries: Seq<CacheEntry>, url: Seq<char>) -> int {
    choose|i: int| 0 <= i < entries.len() && (#[trigger] entries[i]).url@ == url
}

spec fn entry_map(entries: Seq<CacheEntry>) -> Map<Seq<char>, CachedView> {
    Map::new(
        |url: Seq<char>| has_url(entries, url),
        |url: Seq<char>| entries[place_of(entries, url)].cached(),
    )
}

spec fn distinct_urls(entries: Seq<CacheEntry>) -> bool {
    forall|i: int, j: int|
        #![trigger entries[i], entries[j]]
        0 <= i < j < entries.len() ==> entries[i].url@ != entries[j].url@
}

proof fn lemma_entry_at(entries: Seq<CacheEntry>, i: int)
    requires
        distinct_urls(entries),
        0 <= i < entries.len(),
    ensures
        entry_map(entries).dom().contains(entries[i].url@),
        entry_map(entries)[entries[i].url@] == entries[i].cached(),
{
    let url = entries[i].url@;
    assert(has_url(entries, url));
    let p = place_of(entries, url);
    assert(0 <= p < entries.len() && entries[p].url@ == url);
    if p < i {
        assert(entries[p].url@ != entries[i].url@);
    } else if i < p {
        assert(entries[i].url@ != entries[p].url@);
    }
}

proof fn lemma_entry_count(entries: Seq<CacheEntry>)
    requires
        distinct_urls(entries),
    ensures
        entry_map(entries).dom().finite(),
        entry_map(entries).len() == entries.len(),
{
    let urls = entries.map_values(|e: CacheEntry| e.url@);
    assert(urls.no_duplicates()) by {
        assert forall|i: int, j: int|
            0 <= i < urls.len() && 0 <= j < urls.len() && i != j implies urls[i] != urls[j] by {
            if i < j {
                assert(entries[i].url@ != entries[j].url@);
            } else {
                assert(entries[j].url@ != entries[i].url@);
            }
        }
    }
    urls.unique_seq_to_set();
    assert(entry_map(entries).dom() =~= urls.to_set()) by {
        assert forall|url: Seq<char>| has_url(entries, url) <==> urls.to_set().contains(url) by {
            if has_url(entries, url) {
                let p = place_of(entries, url);
                assert(urls[p] == url);
            }
            if urls.to_set().contains(url) {
                let i = choose|i: int| 0 <= i < urls.len() && urls[i] == url;
                assert(entries[i].url@ == url);
            }
        }
    }
}

impl View for LinkPreviewCache {
    type V = Map<Seq<char>, CachedView>;

    closed spec fn view(&self) -> Map<Seq<char>, CachedView> {
        entry_map(self.entries@)
    }
}

impl LinkPreviewCache {
    /// The cache holds at most [`MAX_CACHE_SIZE`] entries, one for a URL, none of them pending.
    pub closed spec fn wf(&self) -> bool {
        &&& distinct_urls(self.entries@)
        &&& self.entries@.len() <= MAX_CACHE_SIZE
        &&& forall|i: int|
            0 <= i < self.entries@.len() ==> !((#[trigger] self.entries@[i]).data is Pending)
    }

    /// The moment from which every stored time is counted.
    pub closed spec fn origin(&self) -> std::time::Instant {
        self.origin
    }

    /// A well-formed cache is bounded and holds completed fetches only.
    pub proof fn cache_is_bounded_and_settled(&self)
        requires
            self.wf(),
        ensures
            self@.dom().finite(),
            self@.len() <= MAX_CACHE_SIZE,
            forall|url: Seq<char>| #[trigger]
                self@.dom().contains(url) ==> !(self@[url].data is Pending),
    {
        lemma_entry_count(self.entries@);
        assert forall|url: Seq<char>| #[trigger] self@.dom().contains(url) implies !(
        self@[url].data is Pending) by {
            let p = place_of(self.entries@, url);
            assert(!(self.entries@[p].data is Pending));
        }
    }

    /// Creates an empty cache.
    pub fn new() -> (cache: Self)
        ensures
            cache.wf(),
            cache@ == Map::<Seq<char>, CachedView>::empty(),
    {
        let cache = LinkPreviewCache { entries: Vec::new(), origin: std::time::Instant::now() };
        assert(cache@ =~= Map::<Seq<char>, CachedView>::empty());
        cache
    }

    /// The place of `url` among the entries.
    fn find(&self, url: &str) -> (place: Option<usize>)
        requires
            self.wf(),
        ensures
            match place {
                Some(i) => i < self.entries@.len() && self.entries@[i as int].url@ == url@
                    && self@.dom().contains(url@) && self@[url@]
                    == self.entries@[i as int].cached(),
                None => !self@.dom().contains(url@),
            },
    {
        let mut i: usize = 0;
        while i < self.entries.len()
            invariant
                i <= self.entries.len(),
                self.wf(),
                forall|k: int| 0 <= k < i ==> (#[trigger] self.entries@[k]).url@ != url@,
            decreases self.entries.len() - i,
        {
            if text::same_text(self.entries[i].url.as_str(), url) {
                proof {
                    lemma_entry_at(self.entries@, i as int);
                }
                return Some(i);
            }
            i += 1;
        }
        None
    }

    /// The preview of `url`, if it is cached and fresh at time `now`.
    pub fn get_at(&self, url: &str, now: u128) -> (found: Option<LinkPreviewResult>)
        requires
            self.wf(),
        ensures
            match found {
                Some(data) => lookup(self@, url@, now as int) == Some(data@),
                None => lookup(self@, url@, now as int) is None,
            },
    {
        if let Some(i) = self.find(url) {
            let entry = &self.entries[i];
            let ttl: u128 = match &entry.data {
                LinkPreviewResult::Success(_) => CACHE_TTL_NANOS,
                LinkPreviewResult::Error(_) => NEGATIVE_CACHE_TTL_NANOS,
                LinkPreviewResult::Pending => 0,
            };
            if now.saturating_sub(entry.fetched_at) < ttl {
                return Some(preview_data::copy_result(&entry.data));
            }
        }
        None
    }

    /// The place of an entry that no other was fetched before.
    fn oldest(&self) -> (place: usize)
        requires
            self.wf(),
            self.entries@.len() > 0,
        ensures
            place < self.entries@.len(),
            is_oldest(self@, self.entries@[place as int].url@),
    {
        let mut best: usize = 0;
        let mut i: usize = 1;
        while i < self.entries.len()
            invariant
                best < i <= self.entries.len(),
                forall|k: int|
                    0 <= k < i ==> self.entries@[best as int].fetched_at <= (
                    #[trigger] self.entries@[k]).fetched_at,
            decreases self.entries.len() - i,
        {
            if self.entries[i].fetched_at < self.entries[best].fetched_at {
                best = i;
            }
            i += 1;
        }
        proof {
            lemma_entry_at(self.entries@, best as int);
            let url = self.entries@[best as int].url@;
            assert forall|other: Seq<char>| #[trigger]
                self@.dom().contains(other) implies self@[url].fetched_at
                <= self@[other].fetched_at by {
                let p = place_of(self.entries@, other);
                lemma_entry_at(self.entries@, p);
            }
        }
        best
    }

    /// Takes out the entry at `place`.
    fn take_out(&mut self, place: usize)
        requires
            old(self).wf(),
            place < old(self).entries@.len(),
        ensures
            final(self).wf(),
            final(self).origin() == old(self).origin(),
            final(self)@ == old(self)@.remove(old(self).entries@[place as int].url@),
            final(self).entries@ == old(self).entries@.remove(place as int),
    {
        let ghost before = self.entries@;
        let ghost gone = before[place as int].url@;
        self.entries.remove(place);
        proof {
            let after = self.entries@;
            assert(distinct_urls(after)) by {
                assert forall|i: int, j: int|
                    #![trigger after[i], after[j]]
                    0 <= i < j < after.len() implies after[i].url@ != after[j].url@ by {
                    let bi = if i < place { i } else { i + 1 };
                    let bj = if j < place { j } else { j + 1 };
                    assert(before[bi].url@ != before[bj].url@);
                }
            }
            assert forall|i: int| 0 <= i < after.len() implies !((#[trigger] after[i]).data
                is Pending) by {
                let bi = if i < place { i } else { i + 1 };
                assert(!(before[bi].data is Pending));
            }
            assert(entry_map(after) =~= entry_map(before).remove(gone)) by {
                assert forall|url: Seq<char>| has_url(after, url) <==> (has_url(before, url) && url
                    != gone) by {
                    if has_url(after, url) {
                        let p = place_of(after, url);
                        let bp = if p < place { p } else { p + 1 };
                        assert(before[bp].url@ == url);
                        if bp < place {
                            assert(before[bp].url@ != before[place as int].url@);
                        } else {
                            assert(before[place as int].url@ != before[bp].url@);
                        }
                    }
                    if has_url(before, url) && url != gone {
                        let p = place_of(before, url);
                        let ap = if p < place { p } else { p - 1 };
                        assert(after[ap].url@ == url);
                    }
                }
                assert forall|url: Seq<char>| has_url(after, url) implies entry_map(after)[url]
                    == entry_map(before)[url] by {
                    let p = place_of(after, url);
                    let bp = if p < place { p } else { p + 1 };
                    lemma_entry_at(after, p);
                    lemma_entry_at(before, bp);
                }
            }
        }
    }

    /// Adds an entry for a URL that has none.
    fn add_entry(&mut self, url: &str, data: LinkPreviewResult, now: u128)
        requires
            old(self).wf(),
            old(self).entries@.len() < MAX_CACHE_SIZE,
            !old(self)@.dom().contains(url@),
            !(data is Pending),
        ensures
            final(self).wf(),
            final(self).origin() == old(self).origin(),
            final(self)@ == old(self)@.insert(
                url@,
                (CachedView { data: data@, fetched_at: now as int }),
            ),
    {
        let ghost before = self.entries@;
        let entry = CacheEntry { url: url.to_owned(), data, fetched_at: now };
        let ghost added = entry;
        self.entries.push(entry);
        proof {
            let after = self.entries@;
            assert(distinct_urls(after)) by {
                assert forall|i: int, j: int|
                    #![trigger after[i], after[j]]
                    0 <= i < j < after.len() implies after[i].url@ != after[j].url@ by {
                    if j == before.len() {
                        assert(before[i].url@ != url@) by {
                            if before[i].url@ == url@ {
                                assert(has_url(before, url@));
                            }
                        }
                    } else {
                        assert(before[i].url@ != before[j].url@);
                    }
                }
            }
            assert(entry_map(after) =~= entry_map(before).insert(url@, added.cached())) by {
                lemma_entry_at(after, before.len() as int);
                assert forall|u: Seq<char>| has_url(after, u) <==> (has_url(before, u) || u
                    == url@) by {
                    if has_url(after, u) && u != url@ {
                        let p = place_of(after, u);
                        assert(before[p].url@ == u);
                    }
                    if has_url(before, u) {
                        let p = place_of(before, u);
                        assert(after[p].url@ == u);
                    }
                    if u == url@ {
                        assert(after[before.len() as int].url@ == u);
                    }
                }
                assert forall|u: Seq<char>| has_url(before, u) implies entry_map(after)[u]
                    == entry_map(before)[u] by {
                    let p = place_of(before, u);
                    lemma_entry_at(before, p);
                    lemma_entry_at(after, p);
                    assert(after[p] == before[p]);
                }
            }
        }
    }

    /// Stores a result for `url` at time `now`.
    pub fn insert_at(&mut self, url: &str, data: LinkPreviewResult, now: u128)
        requires
            old(self).wf(),
        ensures
            final(self).wf(),
            final(self).origin() == old(self).origin(),
            is_insertion(old(self)@, final(self)@, url@, data@, now as int),
    {
        if let LinkPreviewResult::Pending = data {
            return ;
        }
        proof {
            lemma_entry_count(self.entries@);
        }
        let ghost before = self@;
        let ghost stored = CachedView { data: data@, fetched_at: now as int };
        match self.find(url) {
            Some(i) => {
                self.take_out(i);
                self.add_entry(url, data, now);
                assert(before.remove(url@).insert(url@, stored) =~= before.insert(url@, stored));
            },
            None => {
                if self.entries.len() >= MAX_CACHE_SIZE {
                    let oldest = self.oldest();
                    let ghost gone = self.entries@[oldest as int].url@;
                    self.take_out(oldest);
                    self.add_entry(url, data, now);
                    assert(is_oldest(before, gone));
                } else {
                    self.add_entry(url, data, now);
                }
            },
        }
    }

    /// Takes out every entry that is no longer fresh at time `now`.
    pub fn evict_expired_at(&mut self, now: u128)
        requires
            old(self).wf(),
        ensures
            final(self).wf(),
            final(self).origin() == old(self).origin(),
            final(self)@ == fresh_only(old(self)@, now as int),
    {
        let ghost start = self@;
        let mut i: usize = 0;
        while i < self.entries.len()
            invariant
                i <= self.entries@.len(),
                self.wf(),
                self.origin() == old(self).origin(),
                fresh_only(self@, now as int) == fresh_only(start, now as int),
                forall|k: int|
                    0 <= k < i ==> is_fresh((#[trigger] self.entries@[k]).cached(), now as int),
            decreases self.entries@.len() - i,
        {
            let entry = &self.entries[i];
            let ttl: u128 = match &entry.data {
                LinkPreviewResult::Success(_) => CACHE_TTL_NANOS,
                LinkPreviewResult::Error(_) => NEGATIVE_CACHE_TTL_NANOS,
                LinkPreviewResult::Pending => 0,
            };
            if now.saturating_sub(entry.fetched_at) < ttl {
                i += 1;
            } else {
                let ghost before = self@;
                let ghost old_entries = self.entries@;
                proof {
                    lemma_entry_at(self.entries@, i as int);
                }
                self.take_out(i);
                proof {
                    assert(fresh_only(self@, now as int) =~= fresh_only(before, now as int));
                    assert forall|k: int| 0 <= k < i implies is_fresh(
                        (#[trigger] self.entries@[k]).cached(),
                        now as int,
                    ) by {
                        assert(self.entries@[k] == old_entries[k]);
                    }
                }
            }
        }
        proof {
            assert(fresh_only(self@, now as int) =~= self@) by {
                assert forall|url: Seq<char>| #[trigger] self@.dom().contains(url) implies is_fresh(
                    self@[url],
                    now as int,
                ) by {
                    let p = place_of(self.entries@, url);
                    lemma_entry_at(self.entries@, p);
                }
            }
        }
    }

    /// The preview of `url`, if it is cached and fresh now.
    pub fn get(&self, url: &str) -> (found: Option<LinkPreviewResult>)
        requires
            self.wf(),
        ensures
            exists|now: u128|
                match found {
                    Some(data) => #[trigger] lookup(self@, url@, now as int) == Some(data@),
                    None => lookup(self@, url@, now as int) is None,
                },
    {
        let now = clock::nanos_since(&self.origin);
        self.get_at(url, now)
    }

    /// Stores a result for `url`; when the cache is full, the oldest entry makes room.
    ///
    /// A pending result is not stored.
    pub fn insert(&mut self, url: &str, data: LinkPreviewResult)
        requires
            old(self).wf(),
        ensures
            final(self).wf(),
            final(self).origin() == old(self).origin(),
            exists|now: u128| #[trigger]
                is_insertion(old(self)@, final(self)@, url@, data@, now as int),
    {
        let now = clock::nanos_since(&self.origin);
        self.insert_at(url, data, now);
    }

    /// Takes out every entry that is no longer fresh.
    pub fn evict_expired(&mut self)
        requires
            old(self).wf(),
        ensures
            final(self).wf(),
            final(self).origin() == old(self).origin(),
            exists|now: u128| final(self)@ == #[trigger] fresh_only(old(self)@, now as int),
    {
        let now = clock::nanos_since(&self.origin);
        self.evict_expired_at(now);
    }

    /// Takes out the entry of one URL.
    pub fn evict(&mut self, url: &str)
        requires
            old(self).wf(),
        ensures
            final(self).wf(),
            final(self).origin() == old(self).origin(),
            final(self)@ == old(self)@.remove(url@),
    {
        match self.find(url) {
            Some(i) => {
                self.take_out(i);
            },
            None => {
                assert(self@.remove(url@) =~= self@);
            },
        }
    }

    /// The number of entries.
    pub fn len(&self) -> (n: usize)
        requires
            self.wf(),
        ensures
            n == self@.len(),
    {
        proof {
            lemma_entry_count(self.entries@);
        }
        self.entries.len()
    }

    /// Whether the cache holds nothing.
    pub fn is_empty(&self) -> (empty: bool)
        requires
            self.wf(),
        ensures
            empty == (self@.len() == 0),
    {
        self.len() == 0
    }
}

impl Default for LinkPreviewCache {
    fn default() -> (cache: Self)
        ensures
            cache.wf(),
            cache@ == Map::<Seq<char>, CachedView>::empty(),
    {
        Self::new()
    }
}

/// What was stored is found again, unchanged, until its time is over.
pub proof fn stored_preview_is_found(
    before: Map<Seq<char>, CachedView>,
    after: Map<Seq<char>, CachedView>,
    url: Seq<char>,
    data: PreviewResultView,
    stored_at: int,
    now: int,
)
    requires
        is_insertion(before, after, url, data, stored_at),
        !(data is Pending),
        stored_at <= now,
    ensures
        lookup(after, url, now) == (if now - stored_at < ttl_of(data) {
            Some(data)
        } else {
            None
        }),
{
}

/// Storing one preview leaves what a lookup of another URL gives, except for an oldest one
/// that had to make room.
pub proof fn other_previews_stay(
    before: Map<Seq<char>, CachedView>,
    after: Map<Seq<char>, CachedView>,
    url: Seq<char>,
    other: Seq<char>,
    data: PreviewResultView,
    stored_at: int,
    now: int,
)
    requires
        is_insertion(before, after, url, data, stored_at),
        other != url,
    ensures
        lookup(after, other, now) == lookup(before, other, now) || (is_oldest(before, other)
            && before.len() >= MAX_CACHE_SIZE && lookup(after, other, now) is None),
{
}

/// Dropping the expired entries changes no lookup, then or later.
pub proof fn eviction_is_not_observable(
    map: Map<Seq<char>, CachedView>,
    url: Seq<char>,
    evicted_at: int,
    now: int,
)
    requires
        evicted_at <= now,
    ensures
        lookup(fresh_only(map, evicted_at), url, now) == lookup(map, url, now),
{
}

/// What was stored is found again for ten minutes where it is a preview, and for one minute where
/// it is an error; after that, or under another name, it is not found. A fetch that is under way
/// is never found.
pub proof fn previews_are_found_until_their_time_is_over(
    map: Map<Seq<char>, CachedView>,
    url: Seq<char>,
    entry: CachedView,
    now: int,
)
    ensures
        ({
            let found = lookup(map.insert(url, entry), url, now);
            let age = now - entry.fetched_at;
            &&& entry.data is Success ==> (found is Some <==> age < 600 * 1_000_000_000)
            &&& entry.data is Error ==> (found is Some <==> age < 60 * 1_000_000_000)
            &&& entry.data is Pending ==> found is None
            &&& found is Some ==> found == Some(entry.data)
            &&& lookup(map.remove(url), url, now) is None
        }),
{
}

/// Once a preview is no longer found, it is not found later.
pub proof fn what_is_over_stays_over(entry: CachedView, now: int, later: int)
    requires
        now <= later,
    ensures
        is_fresh(entry, later) ==> is_fresh(entry, now),
{
}

/// Storing keeps what was stored before, but for the entry that it replaces and, where the cache
/// is full, one that no other is older than. Nothing that is under way is stored.
pub proof fn storing_costs_at_most_the_oldest(
    before: Map<Seq<char>, CachedView>,
    after: Map<Seq<char>, CachedView>,
    url: Seq<char>,
    data: PreviewResultView,
    now: int,
    other: Seq<char>,
)
    requires
        is_insertion(before, after, url, data, now),
        other != url,
    ensures
        data is Pending ==> after == before,
        !(data is Pending) ==> after.dom().contains(url) && after[url].data == data
            && after[url].fetched_at == now,
        after.dom().contains(other) ==> before.dom().contains(other) && after[other]
            == before[other],
        before.dom().contains(other) && !after.dom().contains(other) ==> before.len() >= 500
            && !before.dom().contains(url) && (forall|third: Seq<char>| #[trigger]
            before.dom().contains(third) ==> before[other].fetched_at <= before[third].fetched_at),
        before.len() < 500 && before.dom().contains(other) ==> after.dom().contains(other),
{
}

/// Where the cache is full, one entry leaves for a new one, so that it never grows further.
pub proof fn a_full_cache_does_not_grow(
    before: Map<Seq<char>, CachedView>,
    after: Map<Seq<char>, CachedView>,
    url: Seq<char>,
    data: PreviewResultView,
    now: int,
)
    requires
        before.dom().finite(),
        before.len() <= 500,
        is_insertion(before, after, url, data, now),
    ensures
        after.dom().finite(),
        after.len() <= 500,
        before.len() == 500 && !(data is Pending) ==> after.len() == 500,
{
    if !(data is Pending) {
        if before.dom().contains(url) {
            assert(after.dom() =~= before.dom());
        } else if before.len() < MAX_CACHE_SIZE {
            assert(after.dom() =~= before.dom().insert(url));
        } else {
            let oldest = choose|oldest: Seq<char>| #[trigger]
                is_oldest(before, oldest) && after == before.remove(oldest).insert(
                    url,
                    CachedView { data, fetched_at: now },
                );
            assert(after.dom() =~= before.dom().remove(oldest).insert(url));
        }
    }
}

/// Eviction takes away just what would not be found.
pub proof fn eviction_takes_only_what_is_over(
    map: Map<Seq<char>, CachedView>,
    now: int,
    url: Seq<char>,
)
    ensures
        fresh_only(map, now).dom().contains(url) <==> map.dom().contains(url) && lookup(
            map,
            url,
            now,
        ) is Some,
        fresh_only(map, now).dom().contains(url) ==> fresh_only(map, now)[url] == map[url],
{
}

/// A preview that was stored is found by its URL for ten minutes, an error for one, unchanged;
/// afterwards it is not. What is under way is not stored.
pub proof fn a_read_gives_back_a_write(
    cache: &mut LinkPreviewCache,
    later: LinkPreviewCache,
    url: &str,
    data: LinkPreviewResult,
    stored_at: u128,
    now: u128,
    found: Option<LinkPreviewResult>,
)
    requires
        call_ensures(LinkPreviewCache::insert_at, (cache, url, data, stored_at), ()),
        later@ == final(cache)@,
        call_ensures(LinkPreviewCache::get_at, (&later, url, now), found),
        stored_at <= now,
    ensures
        data is Success ==> (found is Some <==> now - stored_at < 600 * 1_000_000_000),
        data is Error ==> (found is Some <==> now - stored_at < 60 * 1_000_000_000),
        !(data is Pending) && found is Some ==> found->0@ == data@,
        data is Pending ==> final(cache)@ == old(cache)@,
{
}

/// An entry that is evicted is not found, and no other is touched; what is evicted for its age
/// would not have been found.
pub proof fn evictions_take_what_they_name(
    one: &mut LinkPreviewCache,
    all: &mut LinkPreviewCache,
    url: &str,
    now: u128,
    other: Seq<char>,
)
    requires
        call_ensures(LinkPreviewCache::evict, (one, url), ()),
        call_ensures(LinkPreviewCache::evict_expired_at, (all, now), ()),
        other != url@,
    ensures
        !final(one)@.dom().contains(url@),
        final(one)@.dom().contains(other) <==> old(one)@.dom().contains(other),
        old(one)@.dom().contains(other) ==> final(one)@[other] == old(one)@[other],
        final(all)@.dom().contains(other) <==> old(all)@.dom().contains(other) && lookup(
            old(all)@,
            other,
            now as int,
        ) is Some,
        final(all)@.dom().contains(other) ==> final(all)@[other] == old(all)@[other],
{
}

/// The cache is empty at first, and counts its entries.
pub proof fn caches_count_their_entries(
    fresh: LinkPreviewCache,
    cache: LinkPreviewCache,
    n: usize,
    url: Seq<char>,
)
    requires
        call_ensures(LinkPreviewCache::new, (), fresh),
        call_ensures(LinkPreviewCache::len, (&cache,), n),
    ensures
        !fresh@.dom().contains(url),
        n == cache@.len(),
{
}

} // verus!
