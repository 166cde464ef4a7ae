//! A map from byte-string keys to values, kept as two parallel vectors.
use vstd::prelude::*;

verus! {

/// Byte-string equality.
pub fn bytes_eq(a: &Vec<u8>, b: &Vec<u8>) -> (r: bool)
    ensures
        r == (a@ == b@),
{
    if a.len() != b.len() {
        return false;
    }
    let mut i: usize = 0;
    while i < a.len()
        invariant
            a@.len() == b@.len(),
            0 <= i <= a@.len(),
            forall|j: int| 0 <= j < i ==> a@[j] == b@[j],
        decreases a@.len() - i,
    {
        if a[i] != b[i] {
            return false;
        }
        i += 1;
    }
    assert(a@ =~= b@);
    true
}

/// Element-by-element copy of a vector of `Copy` values.
pub fn copy_vec<T: Copy>(a: &Vec<T>) -> (r: Vec<T>)
    ensures
        r@ == a@,
{
    let mut r: Vec<T> = Vec::new();
    let mut i: usize = 0;
    while i < a.len()
        invariant
            0 <= i <= a@.len(),
            r@ == a@.subrange(0, i as int),
        decreases a@.len() - i,
    {
        r.push(a[i]);
        i += 1;
        assert(r@ =~= a@.subrange(0, i as int));
    }
    assert(a@.subrange(0, a@.len() as int) =~= a@);
    r
}

/// Values that can be duplicated without changing their view.
pub trait Duplicate: View + Sized {
    fn duplicate(&self) -> (r: Self)
        ensures
            r@ == self@;
}

/// The map that a list of (key, value) entries describes; a later entry
/// overrides an earlier one with the same key.
pub open spec fn entries_map<V: View>(s: Seq<(Vec<u8>, V)>) -> Map<Seq<u8>, V::V>
    decreases s.len(),
{
    if s.len() == 0 {
        Map::empty()
    } else {
        entries_map(s.drop_last()).insert(s.last().0@, s.last().1@)
    }
}

/// No key occurs twice among the entries.
pub open spec fn keys_distinct<V>(s: Seq<(Vec<u8>, V)>) -> bool {
    forall|i: int, j: int| 0 <= i < s.len() && 0 <= j < s.len() && i != j ==> #[trigger] s[i].0@ != #[trigger] s[j].0@
}

/// With distinct keys, each entry is found in the map under its key, and the
/// map holds nothing else.
pub proof fn lemma_entries_map<V: View>(s: Seq<(Vec<u8>, V)>)
    requires
        keys_distinct(s),
    ensures
        forall|i: int| 0 <= i < s.len() ==> #[trigger] entries_map(s).contains_key(s[i].0@)
            && entries_map(s)[s[i].0@] == s[i].1@,
        forall|k: Seq<u8>| #[trigger] entries_map(s).contains_key(k) ==> exists|i: int| 0 <= i < s.len() && s[i].0@ == k,
    decreases s.len(),
{
    if s.len() > 0 {
        let t = s.drop_last();
        assert forall|i: int, j: int| 0 <= i < t.len() && 0 <= j < t.len() && i != j implies #[trigger] t[i].0@
            != #[trigger] t[j].0@ by {
            assert(t[i] == s[i] && t[j] == s[j]);
        }
        lemma_entries_map(t);
        assert forall|i: int| 0 <= i < s.len() implies #[trigger] entries_map(s).contains_key(s[i].0@)
            && entries_map(s)[s[i].0@] == s[i].1@ by {
            if i < s.len() - 1 {
                assert(t[i] == s[i]);
                assert(s[i].0@ != s[s.len() - 1].0@);
                assert(entries_map(t).contains_key(t[i].0@));
                assert(entries_map(t)[t[i].0@] == t[i].1@);
            } else {
                assert(s[i] == s.last());
            }
        }
        assert forall|k: Seq<u8>| #[trigger] entries_map(s).contains_key(k) implies exists|i: int|
            0 <= i < s.len() && s[i].0@ == k by {
            if k != s.last().0@ {
                assert(entries_map(t).contains_key(k));
                let i = choose|i: int| 0 <= i < t.len() && t[i].0@ == k;
                assert(s[i] == t[i]);
            } else {
                assert(s[s.len() - 1].0@ == k);
            }
        }
    }
}

/// A map keyed by byte strings (Soroban `String` keys), in insertion order.
pub struct Table<V> {
    keys: Vec<Vec<u8>>,
    vals: Vec<V>,
}

impl<V: View> Table<V> {
    /// Keys and values line up, and no key occurs twice.
    pub closed spec fn wf(&self) -> bool {
        &&& self.keys@.len() == self.vals@.len()
        &&& forall|i: int, j: int|
            0 <= i < self.keys@.len() && 0 <= j < self.keys@.len() && i != j
                ==> #[trigger] self.keys@[i]@ != #[trigger] self.keys@[j]@
    }

    /// Number of stored entries.
    pub closed spec fn size(&self) -> int {
        self.keys@.len() as int
    }

    /// Key stored at position `i`.
    pub closed spec fn key_at(&self, i: int) -> Seq<u8> {
        self.keys@[i]@
    }

    /// The position of key `k`.
    closed spec fn index_of(&self, k: Seq<u8>) -> int {
        choose|i: int| 0 <= i < self.keys@.len() && self.keys@[i]@ == k
    }

    /// The table as a map from keys to the views of the values.
    pub closed spec fn map(&self) -> Map<Seq<u8>, V::V> {
        Map::new(
            |k: Seq<u8>| exists|i: int| 0 <= i < self.keys@.len() && self.keys@[i]@ == k,
            |k: Seq<u8>| self.vals@[self.index_of(k)]@,
        )
    }

    proof fn lemma_index_of(&self, i: int)
        requires
            self.wf(),
            0 <= i < self.keys@.len(),
        ensures
            self.index_of(self.keys@[i]@) == i,
            self.map().contains_key(self.keys@[i]@),
            self.map()[self.keys@[i]@] == self.vals@[i]@,
    {
        let k = self.keys@[i]@;
        assert(0 <= i < self.keys@.len() && self.keys@[i]@ == k);
        let j = self.index_of(k);
        assert(0 <= j < self.keys@.len() && self.keys@[j]@ == k);
    }

    /// An empty table.
    pub fn new() -> (t: Self)
        ensures
            t.wf(),
            t.map() == Map::<Seq<u8>, V::V>::empty(),
    {
        let t = Table { keys: Vec::new(), vals: Vec::new() };
        assert(t.map() =~= Map::<Seq<u8>, V::V>::empty());
        t
    }

    /// Position of `key`, if present.
    pub fn find(&self, key: &Vec<u8>) -> (r: Option<usize>)
        requires
            self.wf(),
        ensures
            r is None <==> !self.map().contains_key(key@),
            r matches Some(i) ==> i < self.size() && self.key_at(i as int) == key@,
    {
        let mut i: usize = 0;
        while i < self.keys.len()
            invariant
                self.wf(),
                0 <= i <= self.keys@.len(),
                forall|j: int| 0 <= j < i ==> self.keys@[j]@ != key@,
            decreases self.keys@.len() - i,
        {
            if bytes_eq(&self.keys[i], key) {
                proof { self.lemma_index_of(i as int); }
                return Some(i);
            }
            i += 1;
        }
        None
    }

    /// Whether `key` is present.
    pub fn contains_key(&self, key: &Vec<u8>) -> (r: bool)
        requires
            self.wf(),
        ensures
            r == self.map().contains_key(key@),
    {
        self.find(key).is_some()
    }

    /// The value at position `i` (as returned by [`Table::find`]).
    pub fn value_at(&self, i: usize) -> (v: &V)
        requires
            self.wf(),
            i < self.size(),
        ensures
            self.map().contains_key(self.key_at(i as int)),
            v@ == self.map()[self.key_at(i as int)],
    {
        proof { self.lemma_index_of(i as int); }
        &self.vals[i]
    }

    /// The value stored under `key`, if any.
    pub fn get(&self, key: &Vec<u8>) -> (r: Option<&V>)
        requires
            self.wf(),
        ensures
            r is None <==> !self.map().contains_key(key@),
            r matches Some(v) ==> v@ == self.map()[key@],
    {
        match self.find(key) {
            Some(i) => Some(&self.vals[i]),
            None => None,
        }
    }

    /// Replace the value at position `i`.
    pub fn replace_at(&mut self, i: usize, v: V)
        requires
            old(self).wf(),
            i < old(self).size(),
        ensures
            final(self).wf(),
            final(self).map() == old(self).map().insert(old(self).key_at(i as int), v@),
    {
        let ghost old_self = *self;
        let ghost k = self.keys@[i as int]@;
        self.vals.set(i, v);
        proof {
            assert(self.keys@ == old_self.keys@);
            assert forall|q: Seq<u8>| #[trigger] self.map().contains_key(q) && q != k implies
                self.map()[q] == old_self.map()[q] by {
                let j = self.index_of(q);
                assert(0 <= j < self.keys@.len() && self.keys@[j]@ == q);
                assert(j != i);
            }
            old_self.lemma_index_of(i as int);
            self.lemma_index_of(i as int);
            assert(self.map() =~= old_self.map().insert(k, v@));
        }
    }

    /// Store `v` under `key`, replacing any previous value.
    pub fn set(&mut self, key: Vec<u8>, v: V)
        requires
            old(self).wf(),
        ensures
            final(self).wf(),
            final(self).map() == old(self).map().insert(key@, v@),
    {
        match self.find(&key) {
            Some(i) => {
                self.replace_at(i, v);
            },
            None => {
                let ghost old_self = *self;
                let ghost k = key@;
                self.keys.push(key);
                self.vals.push(v);
                proof {
                    let n = old_self.keys@.len() as int;
                    assert forall|a: int, b: int|
                        0 <= a < self.keys@.len() && 0 <= b < self.keys@.len() && a != b
                            implies #[trigger] self.keys@[a]@ != #[trigger] self.keys@[b]@ by {
                        if a < n && b < n {
                            assert(old_self.keys@[a] == self.keys@[a]);
                            assert(old_self.keys@[b] == self.keys@[b]);
                        } else if a == n {
                            assert(old_self.keys@[b] == self.keys@[b]);
                            assert(!old_self.map().contains_key(k));
                        } else {
                            assert(old_self.keys@[a] == self.keys@[a]);
                            assert(!old_self.map().contains_key(k));
                        }
                    }
                    assert forall|q: Seq<u8>| #[trigger] old_self.map().contains_key(q) implies
                        self.map().contains_key(q) && self.map()[q] == old_self.map()[q] by {
                        let j = old_self.index_of(q);
                        assert(0 <= j < n && old_self.keys@[j]@ == q);
                        assert(self.keys@[j] == old_self.keys@[j]);
                        self.lemma_index_of(j);
                    }
                    self.lemma_index_of(n);
                    assert forall|q: Seq<u8>| #[trigger] self.map().contains_key(q) implies
                        q == k || old_self.map().contains_key(q) by {
                        let j = self.index_of(q);
                        assert(0 <= j < self.keys@.len() && self.keys@[j]@ == q);
                        if j < n {
                            assert(self.keys@[j] == old_self.keys@[j]);
                        }
                    }
                    assert(self.map() =~= old_self.map().insert(k, v@));
                }
            },
        }
    }

    /// The table's entries, in storage order.
    pub fn to_entries(&self) -> (r: Vec<(Vec<u8>, V)>)
        where
            V: Duplicate,
        requires
            self.wf(),
        ensures
            keys_distinct(r@),
            entries_map(r@) == self.map(),
    {
        let mut r: Vec<(Vec<u8>, V)> = Vec::new();
        let mut i: usize = 0;
        while i < self.keys.len()
            invariant
                self.wf(),
                0 <= i <= self.keys@.len(),
                r@.len() == i,
                forall|j: int| 0 <= j < i ==> (#[trigger] r@[j]).0@ == self.keys@[j]@ && r@[j].1@ == self.vals@[j]@,
            decreases self.keys@.len() - i,
        {
            r.push((copy_vec(&self.keys[i]), self.vals[i].duplicate()));
            i += 1;
        }
        proof {
            assert forall|a: int, b: int| 0 <= a < r@.len() && 0 <= b < r@.len() && a != b implies #[trigger] r@[a].0@
                != #[trigger] r@[b].0@ by {
                assert(self.keys@[a]@ != self.keys@[b]@);
            }
            lemma_entries_map(r@);
            assert forall|k: Seq<u8>| #[trigger] self.map().contains_key(k) implies entries_map(r@).contains_key(k)
                && entries_map(r@)[k] == self.map()[k] by {
                let j = self.index_of(k);
                assert(0 <= j < self.keys@.len() && self.keys@[j]@ == k);
                self.lemma_index_of(j);
                assert(r@[j].0@ == k);
            }
            assert forall|k: Seq<u8>| #[trigger] entries_map(r@).contains_key(k) implies self.map().contains_key(k) by {
                let j = choose|j: int| 0 <= j < r@.len() && r@[j].0@ == k;
                self.lemma_index_of(j);
            }
            assert(entries_map(r@) =~= self.map());
        }
        r
    }

    /// A table holding `entries`, unless a key occurs twice.
    pub fn from_entries(entries: &Vec<(Vec<u8>, V)>) -> (r: Option<Self>)
        where
            V: Duplicate,
        ensures
            r is Some <==> keys_distinct(entries@),
            r matches Some(t) ==> t.wf() && t.map() == entries_map(entries@),
    {
        let mut t = Table::new();
        let mut i: usize = 0;
        while i < entries.len()
            invariant
                0 <= i <= entries@.len(),
                t.wf(),
                keys_distinct(entries@.take(i as int)),
                t.map() == entries_map(entries@.take(i as int)),
            decreases entries@.len() - i,
        {
            proof {
                lemma_entries_map(entries@.take(i as int));
                assert(entries@.take(i as int + 1).drop_last() =~= entries@.take(i as int));
            }
            let key = &entries[i].0;
            if t.contains_key(key) {
                proof {
                    let p = entries@.take(i as int);
                    let j = choose|j: int| 0 <= j < p.len() && p[j].0@ == key@;
                    assert(entries@[j] == p[j]);
                    assert(entries@[j].0@ == entries@[i as int].0@);
                }
                return None;
            }
            t.set(copy_vec(key), entries[i].1.duplicate());
            proof {
                let p = entries@.take(i as int + 1);
                assert forall|a: int, b: int| 0 <= a < p.len() && 0 <= b < p.len() && a != b implies #[trigger] p[a].0@
                    != #[trigger] p[b].0@ by {
                    let q = entries@.take(i as int);
                    if a < i && b < i {
                        assert(p[a] == q[a] && p[b] == q[b]);
                    } else if a == i {
                        assert(p[b] == q[b]);
                        assert(entries_map(q).contains_key(q[b].0@));
                    } else {
                        assert(p[a] == q[a]);
                        assert(entries_map(q).contains_key(q[a].0@));
                    }
                }
            }
            i += 1;
        }
        assert(entries@.take(entries@.len() as int) =~= entries@);
        Some(t)
    }
}

} // verus!
