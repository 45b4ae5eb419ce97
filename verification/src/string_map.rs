//! A map with text keys, kept as a list of entries.
use vstd::prelude::*;

verus! {

/// The map that a list of entries stands for; a later entry wins over an
/// earlier one with the same key.
pub open spec fn entries_map<V>(entries: Seq<(String, V)>) -> Map<Seq<char>, V>
    decreases entries.len(),
{
    if entries.len() == 0 {
        Map::empty()
    } else {
        entries_map(entries.drop_last()).insert(entries.last().0@, entries.last().1)
    }
}

/// Whether no two entries have the same key.
pub open spec fn distinct_keys<V>(entries: Seq<(String, V)>) -> bool {
    forall|i: int, j: int|
        0 <= i < j < entries.len() ==> (#[trigger] entries[i]).0@ != (#[trigger] entries[j]).0@
}

/// The keys of the map are the keys of the entries.
pub proof fn lemma_entries_keys<V>(entries: Seq<(String, V)>, k: Seq<char>)
    ensures
        entries_map(entries).contains_key(k) <==> exists|i: int|
            0 <= i < entries.len() && (#[trigger] entries[i]).0@ == k,
    decreases entries.len(),
{
    if entries.len() > 0 {
        let before = entries.drop_last();
        lemma_entries_keys(before, k);
        if entries_map(entries).contains_key(k) {
            if entries.last().0@ == k {
                assert(entries[entries.len() - 1].0@ == k);
            } else {
                let i = choose|i: int| 0 <= i < before.len() && (#[trigger] before[i]).0@ == k;
                assert(entries[i].0@ == k);
            }
        }
        if exists|i: int| 0 <= i < entries.len() && (#[trigger] entries[i]).0@ == k {
            let i = choose|i: int| 0 <= i < entries.len() && (#[trigger] entries[i]).0@ == k;
            if i < before.len() {
                assert(before[i].0@ == k);
            }
        }
    }
}

/// Where keys are distinct, the map holds each entry's value under its key.
pub proof fn lemma_entries_value<V>(entries: Seq<(String, V)>, i: int)
    requires
        distinct_keys(entries),
        0 <= i < entries.len(),
    ensures
        entries_map(entries).contains_key(entries[i].0@),
        entries_map(entries)[entries[i].0@] == entries[i].1,
    decreases entries.len(),
{
    let before = entries.drop_last();
    if i < before.len() {
        assert(distinct_keys(before));
        lemma_entries_value(before, i);
        assert(before[i] == entries[i]);
        assert(entries[i].0@ != entries[entries.len() - 1].0@);
    }
}

/// Where keys are distinct, the map has as many keys as there are entries.
pub proof fn lemma_entries_len<V>(entries: Seq<(String, V)>)
    requires
        distinct_keys(entries),
    ensures
        entries_map(entries).dom().finite(),
        entries_map(entries).len() == entries.len(),
    decreases entries.len(),
{
    if entries.len() > 0 {
        let before = entries.drop_last();
        assert(distinct_keys(before));
        lemma_entries_len(before);
        lemma_entries_keys(before, entries.last().0@);
        if entries_map(before).contains_key(entries.last().0@) {
            let i = choose|i: int|
                0 <= i < before.len() && (#[trigger] before[i]).0@ == entries.last().0@;
            assert(entries[i].0@ == entries[entries.len() - 1].0@);
        }
        assert(entries_map(entries).dom() =~= entries_map(before).dom().insert(entries.last().0@));
    } else {
        assert(entries_map(entries).dom() =~= Set::empty());
    }
}

/// A map from text to `V`.
#[derive(Debug)]
pub struct StringMap<V> {
    entries: Vec<(String, V)>,
}

impl<V> View for StringMap<V> {
    type V = Map<Seq<char>, V>;

    closed spec fn view(&self) -> Map<Seq<char>, V> {
        entries_map(self.entries@)
    }
}

/// The position of the entry with this key.
fn position<V>(entries: &Vec<(String, V)>, key: &str) -> (r: Option<usize>)
    requires
        distinct_keys(entries@),
    ensures
        r is Some <==> entries_map(entries@).contains_key(key@),
        r matches Some(i) ==> i < entries.len() && entries@[i as int].0@ == key@
            && entries_map(entries@)[key@] == entries@[i as int].1,
{
    let wanted = key.to_owned();
    let mut i: usize = 0;
    while i < entries.len()
        invariant
            i <= entries.len(),
            wanted@ == key@,
            distinct_keys(entries@),
            forall|j: int| 0 <= j < i ==> (#[trigger] entries@[j]).0@ != key@,
        decreases entries.len() - i,
    {
        if entries[i].0 == wanted {
            proof {
                lemma_entries_value(entries@, i as int);
            }
            return Some(i);
        }
        i += 1;
    }
    proof {
        lemma_entries_keys(entries@, key@);
    }
    None
}

impl<V: Clone> Clone for StringMap<V> {
    /// Copies the map: the same keys, each with a clone of its value.
    fn clone(&self) -> (r: Self)
        ensures
            r@.dom() == self@.dom(),
            forall|k: Seq<char>| #[trigger]
                self@.contains_key(k) ==> cloned::<V>(self@[k], r@[k]),
    {
        proof {
            use_type_invariant(self);
        }
        let mut entries: Vec<(String, V)> = Vec::new();
        let mut i: usize = 0;
        while i < self.entries.len()
            invariant
                i <= self.entries@.len(),
                i == entries@.len(),
                distinct_keys(self.entries@),
                forall|j: int|
                    0 <= j < i ==> (#[trigger] entries@[j]).0@ == self.entries@[j].0@ && cloned::<V>(
                        self.entries@[j].1,
                        entries@[j].1,
                    ),
            decreases self.entries.len() - i,
        {
            let key = self.entries[i].0.clone();
            let value = self.entries[i].1.clone();
            entries.push((key, value));
            i += 1;
        }
        proof {
            lemma_same_keys(self.entries@, entries@);
            assert forall|k: Seq<char>| #[trigger] self@.contains_key(k) implies cloned::<V>(
                self@[k],
                entries_map(entries@)[k],
            ) by {
                lemma_entries_keys(self.entries@, k);
                let j = choose|j: int|
                    0 <= j < self.entries@.len() && (#[trigger] self.entries@[j]).0@ == k;
                assert(entries@[j].0@ == k);
                lemma_entries_value(self.entries@, j);
                lemma_entries_value(entries@, j);
            }
        }
        StringMap { entries }
    }
}

/// Two lists with the same keys in the same places stand for maps with the same
/// keys.
pub proof fn lemma_same_keys<V, W>(a: Seq<(String, V)>, b: Seq<(String, W)>)
    requires
        a.len() == b.len(),
        distinct_keys(a),
        forall|i: int| 0 <= i < a.len() ==> (#[trigger] b[i]).0@ == a[i].0@,
    ensures
        distinct_keys(b),
        entries_map(a).dom() == entries_map(b).dom(),
{
    assert forall|i: int, j: int| 0 <= i < j < b.len() implies (#[trigger] b[i]).0@ != (
    #[trigger] b[j]).0@ by {
        assert(a[i].0@ != a[j].0@);
    }
    assert forall|k: Seq<char>|
        entries_map(a).contains_key(k) == entries_map(b).contains_key(k) by {
        lemma_entries_keys(a, k);
        lemma_entries_keys(b, k);
        if entries_map(a).contains_key(k) {
            let i = choose|i: int| 0 <= i < a.len() && (#[trigger] a[i]).0@ == k;
            assert(b[i].0@ == k);
        }
        if entries_map(b).contains_key(k) {
            let i = choose|i: int| 0 <= i < b.len() && (#[trigger] b[i]).0@ == k;
            assert(a[i].0@ == k);
        }
    }
    assert(entries_map(a).dom() =~= entries_map(b).dom());
}

impl<V> StringMap<V> {
    #[verifier::type_invariant]
    spec fn inv(self) -> bool {
        distinct_keys(self.entries@)
    }

    /// Creates an empty map.
    pub fn new() -> (m: Self)
        ensures
            m@ == Map::<Seq<char>, V>::empty(),
    {
        StringMap { entries: Vec::new() }
    }

    /// The number of keys.
    pub fn len(&self) -> (n: usize)
        ensures
            self@.dom().finite(),
            n == self@.len(),
    {
        proof {
            use_type_invariant(self);
            lemma_entries_len(self.entries@);
        }
        self.entries.len()
    }

    /// Whether the map has no keys.
    pub fn is_empty(&self) -> (r: bool)
        ensures
            r <==> self@ == Map::<Seq<char>, V>::empty(),
    {
        proof {
            use_type_invariant(self);
            if self.entries@.len() > 0 {
                lemma_entries_value(self.entries@, 0);
            }
        }
        self.entries.is_empty()
    }

    /// Whether the map has this key.
    pub fn contains_key(&self, key: &str) -> (r: bool)
        ensures
            r == self@.contains_key(key@),
    {
        proof {
            use_type_invariant(self);
        }
        position(&self.entries, key).is_some()
    }

    /// The value under this key.
    pub fn get(&self, key: &str) -> (r: Option<&V>)
        ensures
            r is Some <==> self@.contains_key(key@),
            r matches Some(v) ==> *v == self@[key@],
    {
        proof {
            use_type_invariant(self);
        }
        match position(&self.entries, key) {
            Some(i) => Some(&self.entries[i].1),
            None => None,
        }
    }

    /// Puts a value under a key, in place of any that was there.
    pub fn insert(&mut self, key: String, value: V)
        ensures
            final(self)@ == old(self)@.insert(key@, value),
    {
        proof {
            use_type_invariant(&*self);
        }
        let mut entries: Vec<(String, V)> = Vec::new();
        std::mem::swap(&mut entries, &mut self.entries);
        let ghost before = entries@;
        match position(&entries, key.as_str()) {
            Some(i) => {
                entries[i] = (key, value);
                proof {
                    assert(distinct_keys(entries@)) by {
                        assert forall|a: int, b: int| 0 <= a < b < entries@.len() implies (
                        #[trigger] entries@[a]).0@ != (#[trigger] entries@[b]).0@ by {
                            assert(before[a].0@ != before[b].0@);
                        }
                    }
                    assert(entries_map(entries@) =~= entries_map(before).insert(key@, value)) by {
                        assert forall|k: Seq<char>|
                            entries_map(entries@).contains_key(k) == entries_map(before).insert(
                                key@,
                                value,
                            ).contains_key(k) by {
                            lemma_entries_keys(entries@, k);
                            lemma_entries_keys(before, k);
                            assert(entries@[i as int].0@ == key@);
                            if entries_map(entries@).contains_key(k) && k != key@ {
                                let j = choose|j: int|
                                    0 <= j < entries@.len() && (#[trigger] entries@[j]).0@ == k;
                                assert(before[j].0@ == k);
                            }
                            if entries_map(before).contains_key(k) && k != key@ {
                                let j = choose|j: int|
                                    0 <= j < before.len() && (#[trigger] before[j]).0@ == k;
                                assert(entries@[j].0@ == k);
                            }
                        }
                        assert forall|k: Seq<char>| #[trigger]
                            entries_map(entries@).contains_key(k) implies entries_map(entries@)[k]
                            == entries_map(before).insert(key@, value)[k] by {
                            lemma_entries_keys(entries@, k);
                            let j = choose|j: int|
                                0 <= j < entries@.len() && (#[trigger] entries@[j]).0@ == k;
                            lemma_entries_value(entries@, j);
                            if k != key@ {
                                lemma_entries_value(before, j);
                            } else {
                                lemma_entries_value(entries@, i as int);
                            }
                        }
                    }
                }
            },
            None => {
                proof {
                    lemma_entries_keys(before, key@);
                }
                entries.push((key, value));
                proof {
                    assert(entries@.drop_last() =~= before);
                }
            },
        }
        self.entries = entries;
    }

    /// Takes a key and its value out of the map.
    pub fn remove(&mut self, key: &str)
        ensures
            final(self)@ == old(self)@.remove(key@),
    {
        proof {
            use_type_invariant(&*self);
        }
        let mut entries: Vec<(String, V)> = Vec::new();
        std::mem::swap(&mut entries, &mut self.entries);
        let ghost before = entries@;
        match position(&entries, key) {
            Some(i) => {
                let _ = entries.remove(i);
                proof {
                    lemma_remove_entry(before, i as int);
                }
            },
            None => {
                assert(entries_map(before) =~= entries_map(before).remove(key@));
            },
        }
        self.entries = entries;
    }

    /// The entries of the map, each key once, in some order.
    pub fn into_entries(self) -> (entries: Vec<(String, V)>)
        ensures
            distinct_keys(entries@),
            entries_map(entries@) == self@,
    {
        proof {
            use_type_invariant(&self);
        }
        self.entries
    }

    /// The map that a list of entries stands for.
    pub fn from_entries(entries: Vec<(String, V)>) -> (m: Self)
        ensures
            m@ == entries_map(entries@),
    {
        let mut m = StringMap::new();
        let ghost all = entries@;
        assert(entries_map(all.take(0)) =~= Map::empty());
        for entry in it: entries
            invariant
                it.seq() == all,
                m@ == entries_map(all.take(it.index() as int)),
        {
            proof {
                assert(all.take(it.index() + 1).drop_last() =~= all.take(it.index() as int));
            }
            m.insert(entry.0, entry.1);
        }
        assert(all.take(all.len() as int) =~= all);
        m
    }
}

/// Leaving out an entry leaves out its key.
proof fn lemma_remove_entry<V>(entries: Seq<(String, V)>, i: int)
    requires
        distinct_keys(entries),
        0 <= i < entries.len(),
    ensures
        distinct_keys(entries.remove(i)),
        entries_map(entries.remove(i)) == entries_map(entries).remove(entries[i].0@),
{
    let rest = entries.remove(i);
    let key = entries[i].0@;
    assert forall|a: int, b: int| 0 <= a < b < rest.len() implies (#[trigger] rest[a]).0@ != (
    #[trigger] rest[b]).0@ by {
        let a0 = if a < i { a } else { a + 1 };
        let b0 = if b < i { b } else { b + 1 };
        assert(entries[a0].0@ != entries[b0].0@);
    }
    assert forall|k: Seq<char>|
        entries_map(rest).contains_key(k) == entries_map(entries).remove(key).contains_key(k) by {
        lemma_entries_keys(rest, k);
        lemma_entries_keys(entries, k);
        if entries_map(rest).contains_key(k) {
            let a = choose|a: int| 0 <= a < rest.len() && (#[trigger] rest[a]).0@ == k;
            let a0 = if a < i { a } else { a + 1 };
            assert(entries[a0].0@ == k);
            if a0 < i {
                assert(entries[a0].0@ != entries[i].0@);
            } else {
                assert(entries[i].0@ != entries[a0].0@);
            }
        }
        if entries_map(entries).contains_key(k) && k != key {
            let a = choose|a: int| 0 <= a < entries.len() && (#[trigger] entries[a]).0@ == k;
            if a < i {
                assert(rest[a].0@ == k);
            } else {
                assert(rest[a - 1].0@ == k);
            }
        }
    }
    assert forall|k: Seq<char>| #[trigger]
        entries_map(rest).contains_key(k) implies entries_map(rest)[k] == entries_map(
        entries,
    ).remove(key)[k] by {
        lemma_entries_keys(rest, k);
        let a = choose|a: int| 0 <= a < rest.len() && (#[trigger] rest[a]).0@ == k;
        let a0 = if a < i { a } else { a + 1 };
        lemma_entries_value(rest, a);
        lemma_entries_value(entries, a0);
    }
    assert(entries_map(rest) =~= entries_map(entries).remove(key));
}

} // verus!
