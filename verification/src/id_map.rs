//! A map from 32-byte identifiers to values.

use vstd::prelude::*;

verus! {

/// The identifier of a tunnel.
#[derive(Debug, Clone, Copy, PartialEq, Eq, Hash)]
pub struct TunnelId(pub [u8; 32]);

impl View for TunnelId {
    type V = Seq<u8>;

    open spec fn view(&self) -> Seq<u8> {
        self.0@
    }
}

/// Whether two identifiers are equal.
pub fn same_id(a: &TunnelId, b: &TunnelId) -> (same: bool)
    ensures
        same == (a@ == b@),
{
    let mut i: usize = 0;
    while i < 32
        invariant
            i <= 32,
            forall|k: int| 0 <= k < i ==> a@[k] == b@[k],
        decreases 32 - i,
    {
        if a.0[i] != b.0[i] {
            assert(a@[i as int] != b@[i as int]);
            return false;
        }
        i += 1;
    }
    assert(a@ =~= b@);
    true
}

/// A map from identifiers to values.
#[derive(Debug)]
pub struct IdMap<V> {
    entries: Vec<(TunnelId, V)>,
}

spec fn has_id<V>(entries: Seq<(TunnelId, V)>, id: Seq<u8>) -> bool {
    exists|i: int| 0 <= i < entries.len() && (#[trigger] entries[i]).0@ == id
}

spec fn place_of<V>(entries: Seq<(TunnelId, V)>, id: Seq<u8>) -> int {
    choose|i: int| 0 <= i < entries.len() && (#[trigger] entries[i]).0@ == id
}

spec fn distinct_ids<V>(entries: Seq<(TunnelId, V)>) -> bool {
    forall|i: int, j: int|
        #![trigger entries[i], entries[j]]
        0 <= i < j < entries.len() ==> entries[i].0@ != entries[j].0@
}

spec fn as_map<V>(entries: Seq<(TunnelId, V)>) -> Map<Seq<u8>, V> {
    Map::new(
        |id: Seq<u8>| has_id(entries, id),
        |id: Seq<u8>| entries[place_of(entries, id)].1,
    )
}

proof fn lemma_entry_at<V>(entries: Seq<(TunnelId, V)>, i: int)
    requires
        distinct_ids(entries),
        0 <= i < entries.len(),
    ensures
        as_map(entries).dom().contains(entries[i].0@),
        as_map(entries)[entries[i].0@] == entries[i].1,
{
    let id = entries[i].0@;
    assert(has_id(entries, id));
    let p = place_of(entries, id);
    assert(0 <= p < entries.len() && entries[p].0@ == id);
    if p < i {
        assert(entries[p].0@ != entries[i].0@);
    } else if i < p {
        assert(entries[i].0@ != entries[p].0@);
    }
}

proof fn lemma_entry_count<V>(entries: Seq<(TunnelId, V)>)
    requires
        distinct_ids(entries),
    ensures
        as_map(entries).dom().finite(),
        as_map(entries).len() == entries.len(),
{
    let ids = entries.map_values(|e: (TunnelId, V)| e.0@);
    assert(ids.no_duplicates()) by {
        assert forall|i: int, j: int|
            0 <= i < ids.len() && 0 <= j < ids.len() && i != j implies ids[i] != ids[j] by {
            if i < j {
                assert(entries[i].0@ != entries[j].0@);
            } else {
                assert(entries[j].0@ != entries[i].0@);
            }
        }
    }
    ids.unique_seq_to_set();
    assert(as_map(entries).dom() =~= ids.to_set()) by {
        assert forall|id: Seq<u8>| has_id(entries, id) <==> ids.to_set().contains(id) by {
            if has_id(entries, id) {
                let p = place_of(entries, id);
                assert(ids[p] == id);
            }
            if ids.to_set().contains(id) {
                let i = choose|i: int| 0 <= i < ids.len() && ids[i] == id;
                assert(entries[i].0@ == id);
            }
        }
    }
}

impl<V> View for IdMap<V> {
    type V = Map<Seq<u8>, V>;

    closed spec fn view(&self) -> Map<Seq<u8>, V> {
        as_map(self.entries@)
    }
}

impl<V> IdMap<V> {
    /// No identifier occurs twice.
    pub closed spec fn wf(&self) -> bool {
        distinct_ids(self.entries@)
    }

    /// The identifier at a place.
    pub closed spec fn id_at(&self, i: int) -> Seq<u8> {
        self.entries@[i].0@
    }

    /// The number of places.
    pub closed spec fn places(&self) -> int {
        self.entries@.len() as int
    }

    /// The places hold exactly the identifiers of the map.
    pub proof fn places_cover_the_map(&self)
        requires
            self.wf(),
        ensures
            forall|i: int| 0 <= i < self.places() ==> self@.dom().contains(#[trigger] self.id_at(i)),
            forall|id: Seq<u8>| #[trigger]
                self@.dom().contains(id) ==> exists|i: int|
                    0 <= i < self.places() && #[trigger] self.id_at(i) == id,
    {
        assert forall|i: int| 0 <= i < self.places() implies self@.dom().contains(
            #[trigger] self.id_at(i),
        ) by {
            lemma_entry_at(self.entries@, i);
        }
        assert forall|id: Seq<u8>| #[trigger] self@.dom().contains(id) implies exists|i: int|
            0 <= i < self.places() && #[trigger] self.id_at(i) == id by {
            let p = place_of(self.entries@, id);
            assert(self.id_at(p) == id);
        }
    }

    /// An empty map.
    pub fn new() -> (map: Self)
        ensures
            map.wf(),
            map@ == Map::<Seq<u8>, V>::empty(),
    {
        let map = IdMap { entries: Vec::new() };
        assert(map@ =~= Map::<Seq<u8>, V>::empty());
        map
    }

    /// The place of an identifier.
    fn find(&self, id: &TunnelId) -> (place: Option<usize>)
        requires
            self.wf(),
        ensures
            match place {
                Some(i) => i < self.entries@.len() && self.entries@[i as int].0@ == id@
                    && self@.dom().contains(id@) && self@[id@] == self.entries@[i as int].1,
                None => !self@.dom().contains(id@),
            },
    {
        let mut i: usize = 0;
        while i < self.entries.len()
            invariant
                i <= self.entries.len(),
                self.wf(),
                forall|k: int| 0 <= k < i ==> (#[trigger] self.entries@[k]).0@ != id@,
            decreases self.entries.len() - i,
        {
            if same_id(&self.entries[i].0, id) {
                proof {
                    lemma_entry_at(self.entries@, i as int);
                }
                return Some(i);
            }
            i += 1;
        }
        None
    }

    /// The value of an identifier.
    pub fn get(&self, id: &TunnelId) -> (value: Option<&V>)
        requires
            self.wf(),
        ensures
            match value {
                Some(v) => self@.dom().contains(id@) && self@[id@] == *v,
                None => !self@.dom().contains(id@),
            },
    {
        match self.find(id) {
            Some(i) => Some(&self.entries[i].1),
            None => None,
        }
    }

    /// Whether an identifier has a value.
    pub fn contains_key(&self, id: &TunnelId) -> (found: bool)
        requires
            self.wf(),
        ensures
            found == self@.dom().contains(id@),
    {
        self.find(id).is_some()
    }

    /// Takes an identifier and its value out.
    pub fn remove(&mut self, id: &TunnelId) -> (value: Option<V>)
        requires
            old(self).wf(),
        ensures
            final(self).wf(),
            final(self)@ == old(self)@.remove(id@),
            match value {
                Some(v) => old(self)@.dom().contains(id@) && old(self)@[id@] == v,
                None => !old(self)@.dom().contains(id@),
            },
    {
        let ghost before = self.entries@;
        match self.find(id) {
            None => {
                assert(self@.remove(id@) =~= self@);
                None
            },
            Some(place) => {
                let (_, value) = self.entries.remove(place);
                proof {
                    let after = self.entries@;
                    assert(distinct_ids(after)) by {
                        assert forall|i: int, j: int|
                            #![trigger after[i], after[j]]
                            0 <= i < j < after.len() implies after[i].0@ != after[j].0@ by {
                            let bi = if i < place { i } else { i + 1 };
                            let bj = if j < place { j } else { j + 1 };
                            assert(before[bi].0@ != before[bj].0@);
                        }
                    }
                    assert forall|k: Seq<u8>| has_id(after, k) <==> (has_id(before, k) && k
                        != id@) by {
                        if has_id(after, k) {
                            let p = place_of(after, k);
                            let bp = if p < place { p } else { p + 1 };
                            assert(before[bp].0@ == k);
                            if bp < place {
                                assert(before[bp].0@ != before[place as int].0@);
                            } else {
                                assert(before[place as int].0@ != before[bp].0@);
                            }
                        }
                        if has_id(before, k) && k != id@ {
                            let p = place_of(before, k);
                            let ap = if p < place { p } else { p - 1 };
                            assert(after[ap].0@ == k);
                        }
                    }
                    assert forall|k: Seq<u8>| has_id(after, k) implies as_map(after)[k] == as_map(
                        before,
                    )[k] by {
                        let p = place_of(after, k);
                        let bp = if p < place { p } else { p + 1 };
                        lemma_entry_at(after, p);
                        lemma_entry_at(before, bp);
                    }
                    assert(as_map(after) =~= as_map(before).remove(id@));
                }
                Some(value)
            },
        }
    }

    /// Gives an identifier a value, in place of one that it had.
    pub fn insert(&mut self, id: TunnelId, value: V)
        requires
            old(self).wf(),
        ensures
            final(self).wf(),
            final(self)@ == old(self)@.insert(id@, value),
    {
        let ghost start = self@;
        self.remove(&id);
        let ghost before = self.entries@;
        self.entries.push((id, value));
        proof {
            let after = self.entries@;
            assert(!has_id(before, id@)) by {
                assert(!as_map(before).dom().contains(id@));
            }
            assert(distinct_ids(after)) by {
                assert forall|i: int, j: int|
                    #![trigger after[i], after[j]]
                    0 <= i < j < after.len() implies after[i].0@ != after[j].0@ by {
                    if j == before.len() {
                        assert(after[i] == before[i]);
                    } else {
                        assert(before[i].0@ != before[j].0@);
                    }
                }
            }
            lemma_entry_at(after, before.len() as int);
            assert forall|k: Seq<u8>| has_id(after, k) <==> (has_id(before, k) || k == id@) by {
                if has_id(after, k) && k != id@ {
                    let p = place_of(after, k);
                    assert(before[p].0@ == k);
                }
                if has_id(before, k) {
                    let p = place_of(before, k);
                    assert(after[p].0@ == k);
                }
                if k == id@ {
                    assert(after[before.len() as int].0@ == k);
                }
            }
            assert forall|k: Seq<u8>| has_id(before, k) implies as_map(after)[k] == as_map(
                before,
            )[k] by {
                let p = place_of(before, k);
                lemma_entry_at(before, p);
                lemma_entry_at(after, p);
                assert(after[p] == before[p]);
            }
            assert(as_map(after) =~= as_map(before).insert(id@, value));
            assert(start.remove(id@).insert(id@, value) =~= start.insert(id@, value));
        }
    }

    /// The number of identifiers.
    pub fn len(&self) -> (n: usize)
        requires
            self.wf(),
        ensures
            n == self@.len(),
            n == self.places(),
    {
        proof {
            lemma_entry_count(self.entries@);
        }
        self.entries.len()
    }

    /// Whether the map holds nothing.
    pub fn is_empty(&self) -> (empty: bool)
        requires
            self.wf(),
        ensures
            empty == (self@.len() == 0),
    {
        self.len() == 0
    }

    /// The value at a place.
    pub fn value_at(&self, i: usize) -> (value: &V)
        requires
            self.wf(),
            i < self.places(),
        ensures
            self@.dom().contains(self.id_at(i as int)),
            self@[self.id_at(i as int)] == *value,
    {
        proof {
            lemma_entry_at(self.entries@, i as int);
        }
        &self.entries[i].1
    }
}

} // verus!
