//! Key metadata: a map from text keys to text values.

use vstd::prelude::*;

verus! {

broadcast use vstd::seq_lib::group_seq_properties;

/// The map that a list of distinct-key entries stands for.
pub open spec fn entries_map(s: Seq<(String, String)>) -> Map<Seq<char>, Seq<char>>
    decreases s.len(),
{
    if s.len() == 0 {
        Map::empty()
    } else {
        entries_map(s.drop_last()).insert(s.last().0@, s.last().1@)
    }
}

/// No key occurs twice.
pub open spec fn distinct_keys(s: Seq<(String, String)>) -> bool {
    forall|i: int, j: int| 0 <= i < s.len() && 0 <= j < s.len() && i != j ==> s[i].0@ != s[j].0@
}

/// The metadata of an API key: text keys mapped to text values, each key at most once.
#[derive(Debug)]
pub struct Metadata {
    entries: Vec<(String, String)>,
}

impl View for Metadata {
    type V = Map<Seq<char>, Seq<char>>;

    closed spec fn view(&self) -> Map<Seq<char>, Seq<char>> {
        entries_map(self.entries@)
    }
}

/// The keys of the entries map exactly to the entries' keys.
proof fn lemma_entries_dom(s: Seq<(String, String)>, k: Seq<char>)
    ensures
        entries_map(s).dom().contains(k) <==> exists|i: int| 0 <= i < s.len() && #[trigger] s[i].0@ == k,
    decreases s.len(),
{
    if s.len() > 0 {
        lemma_entries_dom(s.drop_last(), k);
        if entries_map(s.drop_last()).dom().contains(k) {
            let i = choose|i: int| 0 <= i < s.drop_last().len() && #[trigger] s.drop_last()[i].0@ == k;
            assert(s[i].0@ == k);
        }
        if exists|i: int| 0 <= i < s.len() && #[trigger] s[i].0@ == k {
            let i = choose|i: int| 0 <= i < s.len() && #[trigger] s[i].0@ == k;
            if i < s.len() - 1 {
                assert(s.drop_last()[i].0@ == k);
            }
        }
    }
}

/// With distinct keys, the entry at `i` gives the value of its key.
proof fn lemma_entries_value(s: Seq<(String, String)>, i: int)
    requires
        distinct_keys(s),
        0 <= i < s.len(),
    ensures
        entries_map(s).dom().contains(s[i].0@),
        entries_map(s)[s[i].0@] == s[i].1@,
    decreases s.len(),
{
    if i < s.len() - 1 {
        assert(distinct_keys(s.drop_last()));
        lemma_entries_value(s.drop_last(), i);
        assert(s.drop_last()[i] == s[i]);
        assert(s.last().0@ != s[i].0@);
    }
}

/// Replacing the value of the entry at `i` updates its key in the map.
proof fn lemma_entries_update(s: Seq<(String, String)>, i: int, e: (String, String))
    requires
        distinct_keys(s),
        0 <= i < s.len(),
        e.0@ == s[i].0@,
    ensures
        entries_map(s.update(i, e)) == entries_map(s).insert(e.0@, e.1@),
        distinct_keys(s.update(i, e)),
    decreases s.len(),
{
    let t = s.update(i, e);
    if i == s.len() - 1 {
        assert(t.drop_last() =~= s.drop_last());
        assert(entries_map(s.drop_last()).insert(e.0@, s.last().1@).insert(e.0@, e.1@)
            =~= entries_map(s.drop_last()).insert(e.0@, e.1@));
    } else {
        assert(distinct_keys(s.drop_last()));
        lemma_entries_update(s.drop_last(), i, e);
        assert(t.drop_last() =~= s.drop_last().update(i, e));
        assert(s.last().0@ != e.0@);
        assert(entries_map(t) =~= entries_map(s).insert(e.0@, e.1@));
    }
}

impl Metadata {
    /// The invariant: no key occurs twice.
    pub closed spec fn wf(&self) -> bool {
        distinct_keys(self.entries@)
    }

    /// Empty metadata.
    pub fn new() -> (m: Self)
        ensures
            m.wf(),
            m@ == Map::<Seq<char>, Seq<char>>::empty(),
    {
        Metadata { entries: Vec::new() }
    }

    /// The entries, each key once, in the order they were first inserted.
    pub fn as_inner(&self) -> (v: &Vec<(String, String)>)
        requires
            self.wf(),
        ensures
            distinct_keys(v@),
            entries_map(v@) == self@,
    {
        &self.entries
    }

    /// The entries, each key once.
    pub fn into_inner(self) -> (v: Vec<(String, String)>)
        requires
            self.wf(),
        ensures
            distinct_keys(v@),
            entries_map(v@) == self@,
    {
        self.entries
    }

    /// The position of the entry with the given key, if any.
    fn position(&self, key: &String) -> (r: Option<usize>)
        requires
            self.wf(),
        ensures
            match r {
                Some(i) => i < self.entries@.len() && self.entries@[i as int].0@ == key@,
                None => forall|i: int| 0 <= i < self.entries@.len() ==> #[trigger] self.entries@[i].0@ != key@,
            },
    {
        let n = self.entries.len();
        for i in 0..n
            invariant
                n == self.entries@.len(),
                forall|j: int| 0 <= j < i ==> #[trigger] self.entries@[j].0@ != key@,
        {
            if self.entries[i].0 == *key {
                return Some(i);
            }
        }
        None
    }

    /// Sets the value of a key, replacing any earlier value.
    pub fn insert(&mut self, key: String, value: String)
        requires
            old(self).wf(),
        ensures
            final(self).wf(),
            final(self)@ == old(self)@.insert(key@, value@),
    {
        match self.position(&key) {
            Some(i) => {
                proof {
                    lemma_entries_update(self.entries@, i as int, (key, value));
                }
                self.entries.set(i, (key, value));
            },
            None => {
                let ghost before = self.entries@;
                self.entries.push((key, value));
                proof {
                    assert(self.entries@.drop_last() =~= before);
                    assert forall|i: int, j: int|
                        0 <= i < self.entries@.len() && 0 <= j < self.entries@.len() && i != j
                        implies self.entries@[i].0@ != self.entries@[j].0@ by {
                        if i < before.len() && j < before.len() {
                            assert(self.entries@[i] == before[i]);
                            assert(self.entries@[j] == before[j]);
                        } else if i < before.len() {
                            assert(self.entries@[i] == before[i]);
                        } else {
                            assert(self.entries@[j] == before[j]);
                        }
                    }
                }
            },
        }
    }

    /// Sets each entry in turn, later entries replacing earlier values of the same key.
    pub fn extend(&mut self, entries: Vec<(String, String)>)
        requires
            old(self).wf(),
        ensures
            final(self).wf(),
            final(self)@ == entries_map_over(old(self)@, entries@),
    {
        let n = entries.len();
        let mut rest = entries;
        let ghost all = rest@;
        let mut k: usize = 0;
        while k < n
            invariant
                n == all.len(),
                k <= n,
                rest@ == all.subrange(k as int, n as int),
                self.wf(),
                self@ == entries_map_over(old(self)@, all.take(k as int)),
            decreases n - k,
        {
            let (key, value) = rest.remove(0);
            assert(all.take(k + 1).drop_last() =~= all.take(k as int));
            self.insert(key, value);
            k = k + 1;
            assert(rest@ =~= all.subrange(k as int, n as int));
        }
        assert(all.take(n as int) =~= all);
    }

    /// Metadata holding the entries, later entries replacing earlier values of the same
    /// key, as collecting them into a map does.
    pub fn from_entries(entries: Vec<(String, String)>) -> (m: Self)
        ensures
            m.wf(),
            m@ == entries_map_over(Map::empty(), entries@),
    {
        let mut m = Metadata::new();
        m.extend(entries);
        m
    }

    /// The value of a key, if it is set.
    pub fn get(&self, key: &String) -> (r: Option<&String>)
        requires
            self.wf(),
        ensures
            match r {
                Some(v) => self@.dom().contains(key@) && v@ == self@[key@],
                None => !self@.dom().contains(key@),
            },
    {
        match self.position(key) {
            Some(i) => {
                proof {
                    lemma_entries_value(self.entries@, i as int);
                }
                Some(&self.entries[i].1)
            },
            None => {
                proof {
                    lemma_entries_dom(self.entries@, key@);
                }
                None
            },
        }
    }

    /// A copy of the metadata.
    pub fn duplicate(&self) -> (m: Self)
        requires
            self.wf(),
        ensures
            m.wf(),
            m@ == self@,
    {
        let mut entries: Vec<(String, String)> = Vec::new();
        let n = self.entries.len();
        for i in 0..n
            invariant
                n == self.entries@.len(),
                entries@.len() == i,
                forall|j: int| 0 <= j < i ==> #[trigger] entries@[j] == self.entries@[j],
        {
            let k = self.entries[i].0.clone();
            let v = self.entries[i].1.clone();
            entries.push((k, v));
        }
        assert(entries@ =~= self.entries@);
        Metadata { entries }
    }
}

/// The map after inserting the given entries one after the other.
pub open spec fn entries_map_over(m: Map<Seq<char>, Seq<char>>, s: Seq<(String, String)>) -> Map<Seq<char>, Seq<char>>
    decreases s.len(),
{
    if s.len() == 0 {
        m
    } else {
        entries_map_over(m, s.drop_last()).insert(s.last().0@, s.last().1@)
    }
}

/// Read after write: metadata that `insert(k, v)` turned `before` into holds `v` for
/// `k` (which `get` then returns), and every other key keeps what `before` held for it.
pub proof fn lemma_get_after_insert(before: Metadata, after: Metadata, k: String, v: String, other: Seq<char>)
    requires
        after@ == before@.insert(k@, v@),
    ensures
        after@.dom().contains(k@),
        after@[k@] == v@,
        other != k@ ==> (after@.dom().contains(other) == before@.dom().contains(other)),
        other != k@ && before@.dom().contains(other) ==> after@[other] == before@[other],
{
}

} // verus!
