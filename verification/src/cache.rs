//! The title cache: identifier to human-readable project title.
//!
//! Titles are looked up lazily, once per identifier, and then served from
//! memory: the driver consults the cache before every metadata request and
//! records the answer afterwards, so one identifier costs at most one
//! network call.  The cache is modelled as a map from identifier to title;
//! the driver shares one cache, behind a lock, across all concurrent
//! pipelines.

use vstd::prelude::*;

verus! {

/// Map from tracked identifier to project title.
pub struct TitleCache {
    entries: Vec<(String, String)>,
}

/// The map an entry list stands for; later entries win, though a
/// well-formed cache never repeats a key.
spec fn map_of(s: Seq<(String, String)>) -> Map<Seq<char>, Seq<char>>
    decreases s.len(),
{
    if s.len() == 0 {
        Map::empty()
    } else {
        map_of(s.drop_last()).insert(s.last().0@, s.last().1@)
    }
}

impl View for TitleCache {
    type V = Map<Seq<char>, Seq<char>>;

    closed spec fn view(&self) -> Map<Seq<char>, Seq<char>> {
        map_of(self.entries@)
    }
}

/// A key is in the map exactly when some entry carries it.
proof fn lemma_map_of_contains(s: Seq<(String, String)>, k: Seq<char>)
    ensures
        map_of(s).contains_key(k) <==> exists|i: int| 0 <= i < s.len() && s[i].0@ == k,
    decreases s.len(),
{
    if s.len() > 0 {
        lemma_map_of_contains(s.drop_last(), k);
        if map_of(s).contains_key(k) {
            if k == s.last().0@ {
                assert(s[s.len() - 1].0@ == k);
            } else {
                let i = choose|i: int| 0 <= i < s.drop_last().len() && s.drop_last()[i].0@ == k;
                assert(s[i].0@ == k);
            }
        }
        if exists|i: int| 0 <= i < s.len() && s[i].0@ == k {
            let i = choose|i: int| 0 <= i < s.len() && s[i].0@ == k;
            if i < s.len() - 1 {
                assert(s.drop_last()[i].0@ == k);
            }
        }
    }
}

/// Under unique keys, the map sends each entry's key to its title.
proof fn lemma_map_of_index(s: Seq<(String, String)>, i: int)
    requires
        0 <= i < s.len(),
        forall|p: int, q: int| 0 <= p < q < s.len() ==> s[p].0@ != s[q].0@,
    ensures
        map_of(s).contains_key(s[i].0@),
        map_of(s)[s[i].0@] == s[i].1@,
    decreases s.len(),
{
    if i == s.len() - 1 {
    } else {
        assert(s[i].0@ != s.last().0@);
        assert(s.drop_last()[i] == s[i]);
        lemma_map_of_index(s.drop_last(), i);
    }
}

impl TitleCache {
    /// Each identifier is cached at most once.
    pub closed spec fn well_formed(&self) -> bool {
        forall|p: int, q: int|
            0 <= p < q < self.entries@.len() ==> self.entries@[p].0@ != self.entries@[q].0@
    }

    /// An empty cache: no identifier has been looked up yet.
    pub fn new() -> (c: Self)
        ensures
            c.well_formed(),
            c@ == Map::<Seq<char>, Seq<char>>::empty(),
    {
        TitleCache { entries: Vec::new() }
    }

    /// The cached title for an identifier, if one has been recorded.
    pub fn get(&self, key: &String) -> (r: Option<String>)
        requires
            self.well_formed(),
        ensures
            match r {
                Some(title) => self@.contains_key(key@) && title@ == self@[key@],
                None => !self@.contains_key(key@),
            },
    {
        let n = self.entries.len();
        for i in 0..n
            invariant
                n == self.entries@.len(),
                self.well_formed(),
                forall|j: int| 0 <= j < i ==> self.entries@[j].0@ != key@,
        {
            if self.entries[i].0 == *key {
                proof {
                    lemma_map_of_index(self.entries@, i as int);
                }
                return Some(self.entries[i].1.clone());
            }
        }
        proof {
            lemma_map_of_contains(self.entries@, key@);
        }
        None
    }

    /// Records the title for an identifier, replacing any earlier record.
    pub fn insert(&mut self, key: String, title: String)
        requires
            old(self).well_formed(),
        ensures
            final(self).well_formed(),
            final(self)@ == old(self)@.insert(key@, title@),
    {
        let n = self.entries.len();
        for i in 0..n
            invariant
                n == self.entries@.len(),
                self.well_formed(),
                *self == *old(self),
                forall|j: int| 0 <= j < i ==> self.entries@[j].0@ != key@,
        {
            if self.entries[i].0 == key {
                proof {
                    lemma_map_of_update(self.entries@, i as int, (key, title));
                }
                self.entries.set(i, (key, title));
                return ;
            }
        }
        proof {
            let pushed = self.entries@.push((key, title));
            assert(pushed.drop_last() =~= self.entries@);
            assert(map_of(pushed) == map_of(self.entries@).insert(key@, title@));
            lemma_map_of_contains(self.entries@, key@);
        }
        self.entries.push((key, title));
    }
}

/// Two lookups for one identifier cost at most one metadata request: the
/// driver requests a title only when [`TitleCache::get`] answers `None`,
/// and once the answer is recorded the cache holds it, so every later
/// lookup of that identifier is served from memory.
pub proof fn lemma_title_cached_after_record(
    cache: Map<Seq<char>, Seq<char>>,
    id: Seq<char>,
    title: Seq<char>,
)
    ensures
        cache.insert(id, title).contains_key(id),
        cache.insert(id, title)[id] == title,
{
}

/// Replacing the one entry that carries a key updates exactly that key.
proof fn lemma_map_of_update(s: Seq<(String, String)>, i: int, p: (String, String))
    requires
        0 <= i < s.len(),
        forall|a: int, b: int| 0 <= a < b < s.len() ==> s[a].0@ != s[b].0@,
        s[i].0@ == p.0@,
    ensures
        map_of(s.update(i, p)) == map_of(s).insert(p.0@, p.1@),
    decreases s.len(),
{
    let t = s.update(i, p);
    if i == s.len() - 1 {
        assert(t.drop_last() =~= s.drop_last());
        assert(t.last() == p);
        assert(map_of(s).insert(p.0@, p.1@) =~= map_of(s.drop_last()).insert(p.0@, p.1@));
    } else {
        assert(t.drop_last() =~= s.drop_last().update(i, p));
        assert(t.last() == s.last());
        assert(s.drop_last()[i] == s[i]);
        lemma_map_of_update(s.drop_last(), i, p);
        assert(s[i].0@ != s.last().0@);
        assert(map_of(s.drop_last()).insert(p.0@, p.1@).insert(s.last().0@, s.last().1@) =~= map_of(
            s.drop_last(),
        ).insert(s.last().0@, s.last().1@).insert(p.0@, p.1@));
    }
}

} // verus!
