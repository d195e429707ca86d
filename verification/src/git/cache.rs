use std::collections::HashMap;
use vstd::prelude::*;
use vstd::std_specs::hash::*;
use crate::git::history::{visit_cache, visit_list};
use crate::git::types::{views, Commit, CommitId, CommitView};

verus! {

/// Whether some commit of `s` has the identity `id`.
pub open spec fn has_id(s: Seq<Commit>, id: Seq<u8>) -> bool {
    exists|i: int| 0 <= i < s.len() && (#[trigger] s[i]).id@ == id
}

/// A place in `s` where the identity `id` stands, if there is one.
pub open spec fn place_of(s: Seq<Commit>, id: Seq<u8>) -> int {
    choose|i: int| 0 <= i < s.len() && (#[trigger] s[i]).id@ == id
}

/// Whether no identity occurs twice in `s`.
pub open spec fn distinct_ids(s: Seq<Commit>) -> bool {
    forall|i: int, j: int|
        0 <= i < j < s.len() ==> (#[trigger] s[i]).id@ != (#[trigger] s[j]).id@
}

/// The mapping from identity to commit that `s` stands for.
pub open spec fn mapping_of(s: Seq<Commit>) -> Map<Seq<u8>, CommitView> {
    Map::new(|id: Seq<u8>| has_id(s, id), |id: Seq<u8>| s[place_of(s, id)]@)
}

/// Whether every commit in a mapping is filed under its own identity.
pub open spec fn keyed_by_id(m: Map<Seq<u8>, CommitView>) -> bool {
    forall|id: Seq<u8>| #[trigger] m.contains_key(id) ==> m[id].id == id
}

/// In a sequence without repeated identities, each commit is what its identity
/// maps to.
pub proof fn lemma_mapping_at(s: Seq<Commit>, i: int)
    requires
        distinct_ids(s),
        0 <= i < s.len(),
    ensures
        mapping_of(s).contains_key(s[i].id@),
        mapping_of(s)[s[i].id@] == s[i]@,
{
    let id = s[i].id@;
    assert(has_id(s, id));
    let p = place_of(s, id);
    assert(0 <= p < s.len() && s[p].id@ == id);
    if p < i {
        assert(s[p].id@ != s[i].id@);
    } else if i < p {
        assert(s[i].id@ != s[p].id@);
    }
}

/// Every commit of a mapping made from a sequence is filed under its own identity.
pub proof fn lemma_mapping_keyed(s: Seq<Commit>)
    ensures
        keyed_by_id(mapping_of(s)),
{
    assert forall|id: Seq<u8>| #[trigger] mapping_of(s).contains_key(id) implies mapping_of(
        s,
    )[id].id == id by {
        let p = place_of(s, id);
        assert(0 <= p < s.len() && s[p].id@ == id);
    }
}

/// Appending a commit with a new identity adds one entry to the mapping.
pub proof fn lemma_mapping_push(s: Seq<Commit>, c: Commit)
    requires
        distinct_ids(s),
        !has_id(s, c.id@),
    ensures
        distinct_ids(s.push(c)),
        mapping_of(s.push(c)) == mapping_of(s).insert(c.id@, c@),
{
    let t = s.push(c);
    assert forall|i: int, j: int| 0 <= i < j < t.len() implies (#[trigger] t[i]).id@ != (
    #[trigger] t[j]).id@ by {
        if j < s.len() {
            assert(s[i].id@ != s[j].id@);
        } else {
            assert(t[i] == s[i]);
            if s[i].id@ == c.id@ {
                assert(has_id(s, c.id@));
            }
        }
    }
    assert forall|id: Seq<u8>| #[trigger]
        mapping_of(t).contains_key(id) == mapping_of(s).insert(c.id@, c@).contains_key(id) by {
        if has_id(t, id) {
            let p = place_of(t, id);
            assert(0 <= p < t.len() && t[p].id@ == id);
            if p < s.len() {
                assert(s[p].id@ == id);
                assert(has_id(s, id));
            }
        }
        if has_id(s, id) {
            let p = place_of(s, id);
            assert(t[p].id@ == id);
            assert(has_id(t, id));
        }
        if id == c.id@ {
            assert(t[s.len() as int].id@ == id);
            assert(has_id(t, id));
        }
    }
    assert forall|id: Seq<u8>| #[trigger] mapping_of(t).contains_key(id) implies mapping_of(
        t,
    )[id] == mapping_of(s).insert(c.id@, c@)[id] by {
        let p = place_of(t, id);
        assert(0 <= p < t.len() && t[p].id@ == id);
        lemma_mapping_at(t, p);
        if p < s.len() {
            assert(t[p] == s[p]);
            lemma_mapping_at(s, p);
        }
    }
    assert(mapping_of(t) =~= mapping_of(s).insert(c.id@, c@));
}

/// Replacing a commit by one of the same identity replaces its entry in the mapping.
pub proof fn lemma_mapping_update(s: Seq<Commit>, i: int, c: Commit)
    requires
        distinct_ids(s),
        0 <= i < s.len(),
        s[i].id@ == c.id@,
    ensures
        distinct_ids(s.update(i, c)),
        mapping_of(s.update(i, c)) == mapping_of(s).insert(c.id@, c@),
{
    let t = s.update(i, c);
    assert forall|a: int, b: int| 0 <= a < b < t.len() implies (#[trigger] t[a]).id@ != (
    #[trigger] t[b]).id@ by {
        assert(t[a].id@ == s[a].id@);
        assert(t[b].id@ == s[b].id@);
        assert(s[a].id@ != s[b].id@);
    }
    assert forall|id: Seq<u8>| #[trigger]
        mapping_of(t).contains_key(id) == mapping_of(s).insert(c.id@, c@).contains_key(id) by {
        if has_id(t, id) {
            let p = place_of(t, id);
            assert(0 <= p < t.len() && t[p].id@ == id);
            assert(s[p].id@ == id);
            assert(has_id(s, id));
        }
        if has_id(s, id) {
            let p = place_of(s, id);
            assert(t[p].id@ == id);
            assert(has_id(t, id));
        }
        if id == c.id@ {
            assert(s[i].id@ == id);
            assert(has_id(s, id));
        }
    }
    assert forall|id: Seq<u8>| #[trigger] mapping_of(t).contains_key(id) implies mapping_of(
        t,
    )[id] == mapping_of(s).insert(c.id@, c@)[id] by {
        let p = place_of(t, id);
        assert(0 <= p < t.len() && t[p].id@ == id);
        lemma_mapping_at(t, p);
        if p != i {
            assert(t[p] == s[p]);
            lemma_mapping_at(s, p);
            if id == c.id@ {
                if p < i {
                    assert(s[p].id@ != s[i].id@);
                } else {
                    assert(s[i].id@ != s[p].id@);
                }
            }
        }
    }
    assert(mapping_of(t) =~= mapping_of(s).insert(c.id@, c@));
}

/// A sequence without repeated identities maps as many identities as it has commits.
pub proof fn lemma_mapping_len(s: Seq<Commit>)
    requires
        distinct_ids(s),
    ensures
        mapping_of(s).dom().finite(),
        mapping_of(s).dom().len() == s.len(),
    decreases s.len(),
{
    if s.len() == 0 {
        assert(mapping_of(s).dom() =~= Set::<Seq<u8>>::empty());
    } else {
        let front = s.drop_last();
        let c = s.last();
        assert forall|i: int, j: int| 0 <= i < j < front.len() implies (#[trigger] front[i]).id@
            != (#[trigger] front[j]).id@ by {
            assert(s[i].id@ != s[j].id@);
        }
        if has_id(front, c.id@) {
            let p = place_of(front, c.id@);
            assert(0 <= p < front.len() && front[p].id@ == c.id@);
            assert(s[p].id@ != s[s.len() - 1].id@);
        }
        lemma_mapping_len(front);
        lemma_mapping_push(front, c);
        assert(front.push(c) =~= s);
        assert(mapping_of(s).dom() =~= mapping_of(front).dom().insert(c.id@));
        assert(!mapping_of(front).dom().contains(c.id@));
    }
}

/// What the store gave for an identity, as the model sees it.
pub open spec fn outcome_view(outcome: Option<Commit>) -> Option<CommitView> {
    match outcome {
        Some(c) => Some(c@),
        None => None,
    }
}

/// The number that the first eight bytes of an identity make, the first byte
/// counting most.
pub open spec fn prefix_of(id: Seq<u8>) -> int {
    id[0] as int * 0x100_0000_0000_0000 + id[1] as int * 0x1_0000_0000_0000 + id[2] as int
        * 0x100_0000_0000 + id[3] as int * 0x1_0000_0000 + id[4] as int * 0x100_0000
        + id[5] as int * 0x1_0000 + id[6] as int * 0x100 + id[7] as int
}

/// Whether an index finds every commit: each commit's place is listed under
/// the prefix of its identity, and every place listed is a place of a commit.
pub open spec fn indexed(entries: Seq<Commit>, index: Map<u64, Vec<usize>>) -> bool {
    &&& forall|i: int|
        0 <= i < entries.len() ==> index.contains_key(
            prefix_of((#[trigger] entries[i]).id@) as u64,
        ) && index[prefix_of(entries[i].id@) as u64]@.contains(i as usize)
    &&& forall|k: u64, j: int|
        index.contains_key(k) && 0 <= j < index[k]@.len() ==> (#[trigger] index[k]@[j])
            < entries.len()
}

fn key_of(id: &CommitId) -> (k: u64)
    ensures
        k == prefix_of(id@),
{
    let b = &id.bytes;
    (b[0] as u64) * 0x100_0000_0000_0000 + (b[1] as u64) * 0x1_0000_0000_0000 + (b[2] as u64)
        * 0x100_0000_0000 + (b[3] as u64) * 0x1_0000_0000 + (b[4] as u64) * 0x100_0000 + (
    b[5] as u64) * 0x1_0000 + (b[6] as u64) * 0x100 + (b[7] as u64)
}

/// The commits that have been read, each filed under its identity, with an
/// index from the prefix of an identity to the places of the commits that
/// share it.
pub struct CommitCache {
    entries: Vec<Commit>,
    index: HashMap<u64, Vec<usize>>,
}

impl View for CommitCache {
    type V = Map<Seq<u8>, CommitView>;

    closed spec fn view(&self) -> Map<Seq<u8>, CommitView> {
        mapping_of(self.entries@)
    }
}

impl CommitCache {
    /// Whether the cache is well formed: no identity is filed twice, and the
    /// index finds every commit.
    pub closed spec fn wf(&self) -> bool {
        &&& distinct_ids(self.entries@)
        &&& indexed(self.entries@, self.index@)
    }

    /// A well-formed cache files each commit under its own identity, and holds
    /// finitely many.
    pub proof fn lemma_wf(&self)
        requires
            self.wf(),
        ensures
            keyed_by_id(self@),
            self@.dom().finite(),
    {
        lemma_mapping_keyed(self.entries@);
        lemma_mapping_len(self.entries@);
    }

    /// An empty cache.
    pub fn new() -> (r: CommitCache)
        ensures
            r.wf(),
            r@ == Map::<Seq<u8>, CommitView>::empty(),
    {
        let r = CommitCache { entries: Vec::new(), index: HashMap::new() };
        assert(r@ =~= Map::<Seq<u8>, CommitView>::empty());
        r
    }

    fn find(&self, id: &CommitId) -> (r: Option<usize>)
        requires
            self.wf(),
        ensures
            match r {
                Some(i) => i < self.entries@.len() && self.entries@[i as int].id@ == id@
                    && self@.contains_key(id@) && self@[id@] == self.entries@[i as int]@,
                None => !self@.contains_key(id@),
            },
    {
        broadcast use group_hash_axioms;

        let key = key_of(id);
        let total = self.entries.len();
        let bucket = match self.index.get(&key) {
            Some(bucket) => bucket,
            None => {
                proof {
                    if has_id(self.entries@, id@) {
                        let p = place_of(self.entries@, id@);
                        assert(self.entries@[p].id@ == id@);
                    }
                }
                return None;
            },
        };
        let mut j: usize = 0;
        while j < bucket.len()
            invariant
                self.wf(),
                total == self.entries@.len(),
                j <= bucket@.len(),
                key == prefix_of(id@),
                self.index@.contains_key(key),
                self.index@[key] == *bucket,
                forall|a: int|
                    0 <= a < j ==> self.entries@[(#[trigger] bucket@[a]) as int].id@ != id@,
            decreases bucket@.len() - j,
        {
            let place = bucket[j];
            assert(self.index@[key]@[j as int] < self.entries@.len());
            if self.entries[place].id.same(id) {
                proof {
                    lemma_mapping_at(self.entries@, place as int);
                }
                return Some(place);
            }
            j = j + 1;
        }
        proof {
            if has_id(self.entries@, id@) {
                let p = place_of(self.entries@, id@);
                assert(self.entries@[p].id@ == id@);
                assert(bucket@.contains(p as usize));
                let a = choose|a: int| 0 <= a < bucket@.len() && bucket@[a] == p as usize;
                assert(self.entries@[bucket@[a] as int].id@ != id@);
            }
        }
        None
    }

    /// Looks an identity up: the commit filed under it, or nothing.
    pub fn get(&self, id: &CommitId) -> (r: Option<&Commit>)
        requires
            self.wf(),
        ensures
            match r {
                Some(c) => self@.contains_key(id@) && c@ == self@[id@],
                None => !self@.contains_key(id@),
            },
    {
        match self.find(id) {
            Some(i) => Some(&self.entries[i]),
            None => None,
        }
    }

    /// Whether an identity is filed.
    pub fn contains(&self, id: &CommitId) -> (r: bool)
        requires
            self.wf(),
        ensures
            r == self@.contains_key(id@),
    {
        self.find(id).is_some()
    }

    /// Files a commit under its identity, in place of any commit filed there.
    pub fn insert(&mut self, commit: Commit)
        requires
            old(self).wf(),
        ensures
            final(self).wf(),
            final(self)@ == old(self)@.insert(commit.id@, commit@),
    {
        broadcast use group_hash_axioms;

        match self.find(&commit.id) {
            Some(i) => {
                proof {
                    lemma_mapping_update(self.entries@, i as int, commit);
                }
                let ghost before = self.entries@;
                self.entries[i] = commit;
                proof {
                    assert forall|a: int| 0 <= a < self.entries@.len() implies self.index@.contains_key(
                        prefix_of((#[trigger] self.entries@[a]).id@) as u64,
                    ) && self.index@[prefix_of(self.entries@[a].id@) as u64]@.contains(
                        a as usize,
                    ) by {
                        assert(before[a].id@ == self.entries@[a].id@);
                    }
                }
            },
            None => {
                proof {
                    lemma_mapping_push(self.entries@, commit);
                }
                let key = key_of(&commit.id);
                let place = self.entries.len();
                let ghost before = self.entries@;
                let ghost index_before = self.index@;
                self.entries.push(commit);
                let mut bucket: Vec<usize> = match self.index.remove(&key) {
                    Some(bucket) => bucket,
                    None => Vec::new(),
                };
                let ghost bucket_before = bucket@;
                bucket.push(place);
                self.index.insert(key, bucket);
                proof {
                    assert forall|a: int| 0 <= a < self.entries@.len() implies self.index@.contains_key(
                        prefix_of((#[trigger] self.entries@[a]).id@) as u64,
                    ) && self.index@[prefix_of(self.entries@[a].id@) as u64]@.contains(
                        a as usize,
                    ) by {
                        let k = prefix_of(self.entries@[a].id@) as u64;
                        if a < place {
                            assert(self.entries@[a] == before[a]);
                            assert(index_before.contains_key(k));
                            assert(index_before[k]@.contains(a as usize));
                            if k == key {
                                let at = choose|at: int|
                                    0 <= at < bucket_before.len() && bucket_before[at]
                                        == a as usize;
                                assert(bucket_before.push(place)[at] == a as usize);
                            }
                        } else {
                            assert(bucket_before.push(place)[bucket_before.len() as int]
                                == place);
                        }
                    }
                    assert forall|k: u64, b: int|
                        self.index@.contains_key(k) && 0 <= b < self.index@[k]@.len() implies (
                    #[trigger] self.index@[k]@[b]) < self.entries@.len() by {
                        if k == key {
                            if b < bucket_before.len() {
                                assert(index_before.contains_key(key));
                                assert(index_before[key]@[b] < before.len());
                            }
                        } else {
                            assert(index_before.contains_key(k));
                            assert(index_before[k]@[b] < before.len());
                        }
                    }
                }
            },
        }
    }

    /// The number of commits filed.
    pub fn len(&self) -> (r: usize)
        requires
            self.wf(),
        ensures
            r == self@.dom().len(),
    {
        proof {
            lemma_mapping_len(self.entries@);
        }
        self.entries.len()
    }

    /// Visits one identity for a load, where `outcome` is what the store gave
    /// for it.
    ///
    /// A cached identity adds its cached commit to `list` and leaves the cache
    /// as it is. One that is not cached is filed with the commit given and adds
    /// it to `list`; where none was given, nothing changes.
    pub fn visit(&mut self, list: &mut Vec<Commit>, id: &CommitId, outcome: Option<Commit>)
        requires
            old(self).wf(),
            outcome matches Some(c) ==> c.id@ == id@,
        ensures
            final(self).wf(),
            final(self)@ == visit_cache(old(self)@, id@, outcome_view(outcome)),
            views(final(list)@) == visit_list(
                old(self)@,
                views(old(list)@),
                id@,
                outcome_view(outcome),
            ),
    {
        let ghost list_before = views(list@);
        let hit: Option<Commit> = match self.get(id) {
            Some(c) => Some(c.clone()),
            None => None,
        };
        match hit {
            Some(commit) => {
                list.push(commit);
                assert(views(list@) =~= list_before.push(commit@));
            },
            None => match outcome {
                Some(commit) => {
                    let copy = commit.clone();
                    self.insert(copy);
                    list.push(commit);
                    assert(views(list@) =~= list_before.push(commit@));
                },
                None => {},
            },
        }
    }

    /// Forgets every commit.
    pub fn clear(&mut self)
        ensures
            final(self).wf(),
            final(self)@ == Map::<Seq<u8>, CommitView>::empty(),
    {
        self.entries.clear();
        self.index.clear();
        assert(self@ =~= Map::<Seq<u8>, CommitView>::empty());
    }
}

} // verus!
