use vstd::prelude::*;

verus! {

/// An append-only association log from string keys to values: the in-memory
/// model of a persisted key-value store. A later entry for a key supersedes
/// an earlier one; the abstract content is the map [`Table::to_map`]. Any
/// entry sequence is a valid table, so the type carries no invariant.
#[derive(Debug)]
pub struct Table<V> {
    pub entries: Vec<(String, V)>,
}

/// The map that a sequence of (key, value) entries denotes: entries are
/// applied left to right, so the last entry for a key wins.
pub open spec fn entries_map<V: DeepView>(s: Seq<(String, V)>) -> Map<Seq<char>, V::V>
    decreases s.len(),
{
    if s.len() == 0 {
        Map::empty()
    } else {
        entries_map(s.drop_last()).insert(s.last().0@, s.last().1.deep_view())
    }
}

/// The last entry for a key decides its value in the denoted map.
proof fn lemma_entries_map_last_match<V: DeepView>(s: Seq<(String, V)>, i: int, k: Seq<char>)
    requires
        0 <= i < s.len(),
        s[i].0@ == k,
        forall|j: int| i < j < s.len() ==> (#[trigger] s[j].0)@ != k,
    ensures
        entries_map(s).contains_key(k),
        entries_map(s)[k] == s[i].1.deep_view(),
    decreases s.len(),
{
    if i < s.len() - 1 {
        lemma_entries_map_last_match(s.drop_last(), i, k);
    }
}

/// A key that no entry carries is absent from the denoted map.
proof fn lemma_entries_map_absent<V: DeepView>(s: Seq<(String, V)>, k: Seq<char>)
    requires
        forall|j: int| 0 <= j < s.len() ==> (#[trigger] s[j].0)@ != k,
    ensures
        !entries_map(s).contains_key(k),
    decreases s.len(),
{
    if s.len() > 0 {
        lemma_entries_map_absent(s.drop_last(), k);
    }
}

impl<V: DeepView> Table<V> {
    /// The key-value content this table holds.
    pub open spec fn to_map(self) -> Map<Seq<char>, V::V> {
        entries_map(self.entries@)
    }

    /// An empty table.
    pub fn new() -> (t: Table<V>)
        ensures
            t.to_map() == Map::<Seq<char>, V::V>::empty(),
    {
        Table { entries: Vec::new() }
    }

    /// Binds `k` to `v`, superseding any earlier binding of `k`.
    pub fn put(&mut self, k: String, v: V)
        ensures
            final(self).to_map() == old(self).to_map().insert(k@, v.deep_view()),
    {
        let ghost s0 = self.entries@;
        let ghost kv = k@;
        let ghost vv = v.deep_view();
        self.entries.push((k, v));
        proof {
            assert(self.entries@.drop_last() =~= s0);
            assert(self.entries@.last().0@ == kv);
            assert(self.entries@.last().1.deep_view() == vv);
        }
    }

    /// Looks a key up: the current binding, or `None` where none exists.
    pub fn get(&self, k: &String) -> (r: Option<&V>)
        ensures
            match r {
                Some(v) => self.to_map().contains_key(k@) && v.deep_view() == self.to_map()[k@],
                None => !self.to_map().contains_key(k@),
            },
    {
        let mut i: usize = self.entries.len();
        while i > 0
            invariant
                i <= self.entries.len(),
                forall|j: int|
                    i <= j < self.entries@.len() ==> (#[trigger] self.entries@[j].0)@ != k@,
            decreases i,
        {
            i = i - 1;
            if self.entries[i].0 == *k {
                proof {
                    lemma_entries_map_last_match(self.entries@, i as int, k@);
                }
                return Some(&self.entries[i].1);
            }
        }
        proof {
            lemma_entries_map_absent(self.entries@, k@);
        }
        None
    }

    /// Whether a binding for `k` exists.
    pub fn contains(&self, k: &String) -> (b: bool)
        ensures
            b == self.to_map().contains_key(k@),
    {
        self.get(k).is_some()
    }
}

} // verus!
