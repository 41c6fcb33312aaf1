//! The in-memory collection: a mapping from string identifier to opaque JSON
//! item, held as a vector of entries with pairwise-distinct keys and viewed
//! as a `Map<Seq<char>, Value>`.

use vstd::prelude::*;
use vstd::set::axiom_set_insert_len;

verus! {

/// No two entries share a key.
pub open spec fn unique_keys(s: Seq<(String, serde_json::Value)>) -> bool {
    forall|i: int, j: int| 0 <= i < j < s.len() ==> s[i].0@ != s[j].0@
}

/// The mapping an entry list stands for; a later entry wins over an earlier
/// one with the same key.
pub open spec fn entries_map(s: Seq<(String, serde_json::Value)>) -> Map<
    Seq<char>,
    serde_json::Value,
>
    decreases s.len(),
{
    if s.len() == 0 {
        Map::empty()
    } else {
        entries_map(s.drop_last()).insert(s.last().0@, s.last().1)
    }
}

/// A key is in the mapping exactly when some entry holds it.
pub proof fn lemma_entries_map_dom(s: Seq<(String, serde_json::Value)>)
    ensures
        forall|k: Seq<char>|
            #[trigger] entries_map(s).contains_key(k) <==> exists|i: int|
                0 <= i < s.len() && s[i].0@ == k,
        entries_map(s).dom().finite(),
    decreases s.len(),
{
    if s.len() > 0 {
        let t = s.drop_last();
        lemma_entries_map_dom(t);
        assert forall|k: Seq<char>| #[trigger] entries_map(s).contains_key(k) implies exists|i: int|
            0 <= i < s.len() && s[i].0@ == k by {
            if k == s.last().0@ {
                assert(s[s.len() - 1].0@ == k);
            } else {
                let i = choose|i: int| 0 <= i < t.len() && t[i].0@ == k;
                assert(s[i].0@ == k);
            }
        }
        assert forall|k: Seq<char>| (exists|i: int| 0 <= i < s.len() && s[i].0@ == k)
            implies #[trigger] entries_map(s).contains_key(k) by {
            let i = choose|i: int| 0 <= i < s.len() && s[i].0@ == k;
            if i < s.len() - 1 {
                assert(t[i].0@ == k);
                assert(entries_map(t).contains_key(k));
            }
        }
    }
}

/// Under unique keys, the entry holding a key gives that key's value.
pub proof fn lemma_entries_map_index(s: Seq<(String, serde_json::Value)>, i: int)
    requires
        unique_keys(s),
        0 <= i < s.len(),
    ensures
        entries_map(s).contains_key(s[i].0@),
        entries_map(s)[s[i].0@] == s[i].1,
    decreases s.len(),
{
    let t = s.drop_last();
    if i < s.len() - 1 {
        assert(unique_keys(t)) by {
            assert(forall|a: int, b: int|
                0 <= a < b < t.len() ==> s[a].0@ != s[b].0@);
        }
        lemma_entries_map_index(t, i);
        assert(s[i].0@ != s.last().0@);
    }
}

/// Under unique keys, the mapping has one member per entry.
pub proof fn lemma_entries_map_len(s: Seq<(String, serde_json::Value)>)
    requires
        unique_keys(s),
    ensures
        entries_map(s).len() == s.len(),
    decreases s.len(),
{
    if s.len() > 0 {
        let t = s.drop_last();
        assert(unique_keys(t)) by {
            assert(forall|a: int, b: int|
                0 <= a < b < t.len() ==> s[a].0@ != s[b].0@);
        }
        lemma_entries_map_len(t);
        lemma_entries_map_dom(t);
        assert(!entries_map(t).contains_key(s.last().0@)) by {
            assert(forall|i: int| 0 <= i < t.len() ==> (#[trigger] s[i]).0@ != s[s.len() - 1].0@);
        }
        axiom_set_insert_len(entries_map(t).dom(), s.last().0@);
        assert(entries_map(s).dom() == entries_map(t).dom().insert(s.last().0@));
    }
}

/// Appending an entry inserts its pair into the mapping.
pub proof fn lemma_entries_map_push(
    s: Seq<(String, serde_json::Value)>,
    id: String,
    item: serde_json::Value,
)
    ensures
        entries_map(s.push((id, item))) == entries_map(s).insert(id@, item),
{
    assert(s.push((id, item)).drop_last() =~= s);
    assert(s.push((id, item)).last() == (id, item));
}

/// Removing the entry holding a key removes that key from the mapping.
pub proof fn lemma_entries_map_remove(s: Seq<(String, serde_json::Value)>, i: int)
    requires
        unique_keys(s),
        0 <= i < s.len(),
    ensures
        unique_keys(s.remove(i)),
        entries_map(s.remove(i)) == entries_map(s).remove(s[i].0@),
    decreases s.len(),
{
    let t = s.drop_last();
    let k = s[i].0@;
    let r = s.remove(i);
    assert(unique_keys(r)) by {
        assert(forall|a: int| 0 <= a < r.len() ==> r[a] == (if a < i {
            s[a]
        } else {
            s[a + 1]
        }));
    }
    lemma_entries_map_dom(t);
    if i == s.len() - 1 {
        assert(r =~= t);
        assert(!entries_map(t).contains_key(k)) by {
            assert(forall|a: int| 0 <= a < t.len() ==> (#[trigger] s[a]).0@ != s[s.len() - 1].0@);
        }
        assert(entries_map(t).insert(k, s.last().1).remove(k) =~= entries_map(t));
    } else {
        assert(unique_keys(t)) by {
            assert(forall|a: int, b: int|
                0 <= a < b < t.len() ==> s[a].0@ != s[b].0@);
        }
        lemma_entries_map_remove(t, i);
        assert(r.last() == s.last());
        assert(r.drop_last() =~= t.remove(i));
        assert(k != s.last().0@);
        assert(entries_map(t).remove(k).insert(s.last().0@, s.last().1) =~= entries_map(t).insert(
            s.last().0@,
            s.last().1,
        ).remove(k));
    }
}

/// The complete identifier-to-item mapping persisted in the backing file.
/// Insertion order is irrelevant; keys are unique.
#[derive(Debug)]
pub struct Collection {
    entries: Vec<(String, serde_json::Value)>,
}

impl View for Collection {
    type V = Map<Seq<char>, serde_json::Value>;

    closed spec fn view(&self) -> Map<Seq<char>, serde_json::Value> {
        entries_map(self.entries@)
    }
}

impl Collection {
    #[verifier::type_invariant]
    spec fn wf(self) -> bool {
        unique_keys(self.entries@)
    }

    /// The empty collection.
    pub fn new() -> (r: Collection)
        ensures
            r@ == Map::<Seq<char>, serde_json::Value>::empty(),
    {
        Collection { entries: Vec::new() }
    }

    /// A collection over an entry list with pairwise-distinct keys.
    pub(crate) fn from_entries(entries: Vec<(String, serde_json::Value)>) -> (r: Collection)
        requires
            unique_keys(entries@),
        ensures
            r@ == entries_map(entries@),
    {
        Collection { entries }
    }

    /// The mapping a collection stands for is finite, as its entry list is.
    pub proof fn lemma_view_finite(&self)
        ensures
            self@.dom().finite(),
    {
        lemma_entries_map_dom(self.entries@);
    }

    /// The entry list behind the collection: every stored item once, under
    /// its identifier.
    pub fn items(&self) -> (r: &Vec<(String, serde_json::Value)>)
        ensures
            unique_keys(r@),
            entries_map(r@) == self@,
    {
        proof {
            use_type_invariant(self);
        }
        &self.entries
    }

    /// The index of the entry holding `id`, if any.
    fn find(&self, id: &str) -> (r: Option<usize>)
        ensures
            r matches Some(i) ==> i < self.entries@.len() && self.entries@[i as int].0@ == id@,
            r is None ==> forall|j: int|
                0 <= j < self.entries@.len() ==> self.entries@[j].0@ != id@,
    {
        let key: String = id.to_owned();
        let n = self.entries.len();
        let mut i: usize = 0;
        while i < n
            invariant
                n == self.entries@.len(),
                i <= n,
                key@ == id@,
                forall|j: int| 0 <= j < i ==> self.entries@[j].0@ != id@,
            decreases n - i,
        {
            if self.entries[i].0 == key {
                return Some(i);
            }
            i += 1;
        }
        None
    }

    /// How many items the collection holds.
    pub fn len(&self) -> (r: usize)
        ensures
            r == self@.len(),
    {
        proof {
            use_type_invariant(self);
            lemma_entries_map_len(self.entries@);
        }
        self.entries.len()
    }

    /// Whether an item is stored at `id`.
    pub fn contains_key(&self, id: &str) -> (r: bool)
        ensures
            r == self@.contains_key(id@),
    {
        proof {
            use_type_invariant(self);
            lemma_entries_map_dom(self.entries@);
        }
        self.find(id).is_some()
    }

    /// The item stored at `id`, if any.
    pub fn get(&self, id: &str) -> (r: Option<&serde_json::Value>)
        ensures
            r matches Some(v) ==> self@.contains_key(id@) && *v == self@[id@],
            r is None ==> !self@.contains_key(id@),
    {
        proof {
            use_type_invariant(self);
            lemma_entries_map_dom(self.entries@);
        }
        match self.find(id) {
            Some(i) => {
                proof {
                    lemma_entries_map_index(self.entries@, i as int);
                }
                Some(&self.entries[i].1)
            },
            None => None,
        }
    }

    /// Upsert: stores `item` at `id`, overwriting any item already there.
    pub fn insert(&mut self, id: String, item: serde_json::Value)
        ensures
            final(self)@ == old(self)@.insert(id@, item),
    {
        proof {
            use_type_invariant(&*self);
        }
        let found = self.find(id.as_str());
        let mut entries: Vec<(String, serde_json::Value)> = Vec::new();
        core::mem::swap(&mut entries, &mut self.entries);
        let ghost s0 = entries@;
        if let Some(i) = found {
            entries.remove(i);
            proof {
                lemma_entries_map_remove(s0, i as int);
            }
        }
        let ghost s1 = entries@;
        proof {
            assert(forall|j: int| 0 <= j < s1.len() ==> s1[j].0@ != id@) by {
                if let Some(i) = found {
                    assert(forall|j: int| 0 <= j < s1.len() ==> s1[j] == (if j < i {
                        s0[j]
                    } else {
                        s0[j + 1]
                    }));
                }
            }
            lemma_entries_map_push(s1, id, item);
        }
        entries.push((id, item));
        proof {
            assert(unique_keys(entries@)) by {
                assert(forall|j: int| 0 <= j < s1.len() ==> entries@[j] == s1[j]);
            }
            if let Some(i) = found {
                assert(entries_map(s1).insert(s0[i as int].0@, item) =~= entries_map(s0).insert(
                    s0[i as int].0@,
                    item,
                ));
            }
        }
        self.entries = entries;
    }

    /// Removes the item at `id` if one is stored; absent `id` is a no-op.
    pub fn remove(&mut self, id: &str)
        ensures
            final(self)@ == old(self)@.remove(id@),
    {
        proof {
            use_type_invariant(&*self);
        }
        match self.find(id) {
            Some(i) => {
                let mut entries: Vec<(String, serde_json::Value)> = Vec::new();
                core::mem::swap(&mut entries, &mut self.entries);
                let ghost s0 = entries@;
                entries.remove(i);
                proof {
                    lemma_entries_map_remove(s0, i as int);
                }
                self.entries = entries;
            },
            None => {
                proof {
                    lemma_entries_map_dom(self.entries@);
                    assert(self@.remove(id@) =~= self@);
                }
            },
        }
    }
}

} // verus!
