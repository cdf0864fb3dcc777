use vstd::prelude::*;

verus! {

/// The keys of `s` are pairwise distinct (compared by their characters).
pub open spec fn keys_distinct<V>(s: Seq<(String, V)>) -> bool {
    forall|i: int, j: int| 0 <= i < j < s.len() ==> s[i].0@ != s[j].0@
}

/// `s[i]` is an entry whose key is `k`.
pub open spec fn key_at<V>(s: Seq<(String, V)>, k: Seq<char>, i: int) -> bool {
    0 <= i < s.len() && s[i].0@ == k
}

/// The map that a list of entries with distinct keys stands for.
pub open spec fn entries_map<V: View>(s: Seq<(String, V)>) -> Map<Seq<char>, V::V> {
    Map::new(
        |k: Seq<char>| exists|i: int| key_at(s, k, i),
        |k: Seq<char>| s[choose|i: int| key_at(s, k, i)].1@,
    )
}

/// Each entry of a list with distinct keys is what the map holds at its key.
proof fn lemma_entry<V: View>(s: Seq<(String, V)>, i: int)
    requires
        keys_distinct(s),
        0 <= i < s.len(),
    ensures
        entries_map(s).dom().contains(s[i].0@),
        entries_map(s)[s[i].0@] == s[i].1@,
{
    let k = s[i].0@;
    assert(key_at(s, k, i));
    let j = choose|j: int| key_at(s, k, j);
    assert(key_at(s, k, j));
    if j < i {
        assert(s[j].0@ != s[i].0@);
    } else if i < j {
        assert(s[i].0@ != s[j].0@);
    }
}

/// A finite map from strings to values: a list of entries whose keys are distinct.
pub struct StrMap<V> {
    entries: Vec<(String, V)>,
}

impl<V> StrMap<V> {
    #[verifier::type_invariant]
    spec fn distinct(self) -> bool {
        keys_distinct(self.entries@)
    }
}

impl<V: View> View for StrMap<V> {
    type V = Map<Seq<char>, V::V>;

    closed spec fn view(&self) -> Map<Seq<char>, V::V> {
        entries_map(self.entries@)
    }
}

impl<V: View> StrMap<V> {
    /// The empty map.
    pub fn new() -> (m: Self)
        ensures
            m@ == Map::<Seq<char>, V::V>::empty(),
    {
        let m = StrMap { entries: Vec::new() };
        assert(m@ =~= Map::<Seq<char>, V::V>::empty());
        m
    }

    /// The number of keys.
    pub fn len(&self) -> (n: usize)
        ensures
            n == self@.dom().len(),
            self@.dom().finite(),
    {
        proof {
            use_type_invariant(self);
            self.lemma_dom();
        }
        self.entries.len()
    }

    /// The domain is the set of the entries' keys, of which there are as many as entries.
    proof fn lemma_dom(self)
        requires
            keys_distinct(self.entries@),
        ensures
            self@.dom() == self.entries@.map_values(|e: (String, V)| e.0@).to_set(),
            self@.dom().finite(),
            self@.dom().len() == self.entries@.len(),
    {
        let s = self.entries@;
        let ks = s.map_values(|e: (String, V)| e.0@);
        assert forall|k: Seq<char>| self@.dom().contains(k) <==> ks.to_set().contains(k) by {
            if self@.dom().contains(k) {
                let i = choose|i: int| key_at(s, k, i);
                assert(ks[i] == k);
            }
            if ks.to_set().contains(k) {
                let i = choose|i: int| 0 <= i < ks.len() && ks[i] == k;
                assert(key_at(s, k, i));
            }
        }
        assert(self@.dom() =~= ks.to_set());
        assert(ks.no_duplicates()) by {
            assert forall|i: int, j: int| 0 <= i < ks.len() && 0 <= j < ks.len() && i != j
                implies ks[i] != ks[j] by {
                if i < j {
                    assert(s[i].0@ != s[j].0@);
                } else {
                    assert(s[j].0@ != s[i].0@);
                }
            }
        }
        ks.unique_seq_to_set();
    }

    /// The value stored under `key`.
    pub fn get(&self, key: &String) -> (r: Option<&V>)
        ensures
            r is Some <==> self@.dom().contains(key@),
            r is Some ==> r->0@ == self@[key@],
    {
        proof {
            use_type_invariant(self);
        }
        match find_in(&self.entries, key) {
            Some(i) => {
                proof {
                    lemma_entry(self.entries@, i as int);
                }
                Some(&self.entries[i].1)
            },
            None => None,
        }
    }

    /// Whether `key` is stored.
    pub fn contains_key(&self, key: &String) -> (b: bool)
        ensures
            b == self@.dom().contains(key@),
    {
        self.get(key).is_some()
    }

    /// Stores `value` under `key`, replacing what was there.
    pub fn insert(&mut self, key: String, value: V)
        ensures
            final(self)@ == old(self)@.insert(key@, value@),
    {
        proof {
            use_type_invariant(&*self);
        }
        let ghost s0 = self.entries@;
        let ghost k = key@;
        let ghost v = value@;
        let mut entries: Vec<(String, V)> = Vec::new();
        std::mem::swap(&mut entries, &mut self.entries);
        let found = find_in(&entries, &key);
        match found {
            Some(i) => {
                entries.set(i, (key, value));
                proof {
                    let s1 = entries@;
                    assert(keys_distinct(s1));
                    assert forall|kk: Seq<char>| #[trigger] entries_map(s1).dom().contains(kk)
                        <==> entries_map(s0).insert(k, v).dom().contains(kk) by {
                        if entries_map(s1).dom().contains(kk) {
                            let j = choose|j: int| key_at(s1, kk, j);
                            if j != i {
                                assert(key_at(s0, kk, j));
                            }
                        }
                        if entries_map(s0).dom().contains(kk) && kk != k {
                            let j = choose|j: int| key_at(s0, kk, j);
                            assert(key_at(s1, kk, j));
                        }
                        if kk == k {
                            assert(key_at(s1, kk, i as int));
                        }
                    }
                    assert forall|kk: Seq<char>| #[trigger] entries_map(s1).dom().contains(kk)
                        implies entries_map(s1)[kk] == entries_map(s0).insert(k, v)[kk] by {
                        let j = choose|j: int| key_at(s1, kk, j);
                        lemma_entry(s1, j);
                        if j != i {
                            lemma_entry(s0, j);
                        }
                    }
                    assert(entries_map(s1) =~= entries_map(s0).insert(k, v));
                }
            },
            None => {
                entries.push((key, value));
                proof {
                    let s1 = entries@;
                    assert(keys_distinct(s1)) by {
                        assert forall|a: int, b: int| 0 <= a < b < s1.len()
                            implies s1[a].0@ != s1[b].0@ by {
                            if b == s0.len() {
                                assert(!key_at(s0, k, a));
                            } else {
                                assert(s0[a].0@ != s0[b].0@);
                            }
                        }
                    }
                    assert forall|kk: Seq<char>| #[trigger] entries_map(s1).dom().contains(kk)
                        <==> entries_map(s0).insert(k, v).dom().contains(kk) by {
                        if entries_map(s1).dom().contains(kk) {
                            let j = choose|j: int| key_at(s1, kk, j);
                            if j < s0.len() {
                                assert(key_at(s0, kk, j));
                            }
                        }
                        if entries_map(s0).dom().contains(kk) {
                            let j = choose|j: int| key_at(s0, kk, j);
                            assert(key_at(s1, kk, j));
                        }
                        if kk == k {
                            assert(key_at(s1, kk, s0.len() as int));
                        }
                    }
                    assert forall|kk: Seq<char>| #[trigger] entries_map(s1).dom().contains(kk)
                        implies entries_map(s1)[kk] == entries_map(s0).insert(k, v)[kk] by {
                        let j = choose|j: int| key_at(s1, kk, j);
                        lemma_entry(s1, j);
                        if j < s0.len() {
                            lemma_entry(s0, j);
                        }
                    }
                    assert(entries_map(s1) =~= entries_map(s0).insert(k, v));
                }
            },
        }
        self.entries = entries;
    }

    /// Takes out the value stored under `key`, if any.
    pub fn remove(&mut self, key: &String) -> (r: Option<V>)
        ensures
            r is Some <==> old(self)@.dom().contains(key@),
            r is Some ==> r->0@ == old(self)@[key@],
            final(self)@ == old(self)@.remove(key@),
    {
        proof {
            use_type_invariant(&*self);
        }
        let ghost s0 = self.entries@;
        let ghost k = key@;
        let mut entries: Vec<(String, V)> = Vec::new();
        std::mem::swap(&mut entries, &mut self.entries);
        let found = find_in(&entries, key);
        match found {
            Some(i) => {
                proof {
                    lemma_entry(s0, i as int);
                }
                let (_, value) = entries.remove(i);
                proof {
                    let s1 = entries@;
                    assert(keys_distinct(s1)) by {
                        assert forall|a: int, b: int| 0 <= a < b < s1.len()
                            implies s1[a].0@ != s1[b].0@ by {
                            if a < i {
                                if b < i {
                                    assert(s0[a].0@ != s0[b].0@);
                                } else {
                                    assert(s0[a].0@ != s0[b + 1].0@);
                                }
                            } else {
                                assert(s0[a + 1].0@ != s0[b + 1].0@);
                            }
                        }
                    }
                    assert forall|kk: Seq<char>| #[trigger] entries_map(s1).dom().contains(kk)
                        <==> entries_map(s0).remove(k).dom().contains(kk) by {
                        if entries_map(s1).dom().contains(kk) {
                            let j = choose|j: int| key_at(s1, kk, j);
                            if j < i {
                                assert(key_at(s0, kk, j));
                                assert(s0[j].0@ != s0[i as int].0@);
                            } else {
                                assert(key_at(s0, kk, j + 1));
                                assert(s0[i as int].0@ != s0[j + 1].0@);
                            }
                        }
                        if entries_map(s0).dom().contains(kk) && kk != k {
                            let j = choose|j: int| key_at(s0, kk, j);
                            if j < i {
                                assert(key_at(s1, kk, j));
                            } else {
                                assert(j != i);
                                assert(key_at(s1, kk, j - 1));
                            }
                        }
                    }
                    assert forall|kk: Seq<char>| #[trigger] entries_map(s1).dom().contains(kk)
                        implies entries_map(s1)[kk] == entries_map(s0).remove(k)[kk] by {
                        let j = choose|j: int| key_at(s1, kk, j);
                        lemma_entry(s1, j);
                        if j < i {
                            lemma_entry(s0, j);
                        } else {
                            lemma_entry(s0, j + 1);
                        }
                    }
                    assert(entries_map(s1) =~= entries_map(s0).remove(k));
                }
                self.entries = entries;
                Some(value)
            },
            None => {
                proof {
                    assert(entries_map(s0) =~= entries_map(s0).remove(k));
                }
                self.entries = entries;
                None
            },
        }
    }

    /// Hands out the entries, one per key, in no particular order.
    pub fn into_entries(self) -> (r: Vec<(String, V)>)
        ensures
            keys_distinct(r@),
            entries_map(r@) == self@,
    {
        proof {
            use_type_invariant(&self);
        }
        self.entries
    }
}

/// The position of `key` among the entries, if it is there.
fn find_in<V>(entries: &Vec<(String, V)>, key: &String) -> (r: Option<usize>)
    ensures
        r is Some ==> key_at(entries@, key@, r->0 as int),
        r is None ==> forall|i: int| !key_at(entries@, key@, i),
{
    let mut i: usize = 0;
    while i < entries.len()
        invariant
            i <= entries@.len(),
            forall|j: int| 0 <= j < i ==> entries@[j].0@ != key@,
        decreases entries@.len() - i,
    {
        if entries[i].0 == *key {
            return Some(i);
        }
        i = i + 1;
    }
    None
}

} // verus!
