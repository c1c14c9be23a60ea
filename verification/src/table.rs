//! A finite map with linear lookup, used for every keyed ledger entry.
use vstd::prelude::*;

verus! {

/// A key of a [`Table`]: keys with the same view address the same entry.
pub trait LedgerKey: View + Sized {
    /// Whether the two keys address the same entry.
    fn same(&self, other: &Self) -> (r: bool)
        ensures
            r == (self@ == other@),
    ;
}

impl LedgerKey for u64 {
    fn same(&self, other: &u64) -> (r: bool) {
        *self == *other
    }
}

impl LedgerKey for u32 {
    fn same(&self, other: &u32) -> (r: bool) {
        *self == *other
    }
}

impl LedgerKey for String {
    fn same(&self, other: &String) -> (r: bool) {
        *self == *other
    }
}

impl<A: LedgerKey, B: LedgerKey> LedgerKey for (A, B) {
    fn same(&self, other: &(A, B)) -> (r: bool) {
        self.0.same(&other.0) && self.1.same(&other.1)
    }
}

impl<A: LedgerKey, B: LedgerKey, C: LedgerKey> LedgerKey for (A, B, C) {
    fn same(&self, other: &(A, B, C)) -> (r: bool) {
        self.0.same(&other.0) && self.1.same(&other.1) && self.2.same(&other.2)
    }
}

/// A map from keys to values. Where a key occurs twice in the backing vector
/// the first occurrence counts.
pub struct Table<K, V> {
    entries: Vec<(K, V)>,
}

/// Whether some entry of `s` carries the key `k`.
pub closed spec fn holds_key<K: View, V>(s: Seq<(K, V)>, k: K::V) -> bool {
    exists|i: int| 0 <= i < s.len() && (#[trigger] s[i]).0@ == k
}

/// The value of the first entry of `s` with the key `k`.
pub closed spec fn first_value<K: View, V>(s: Seq<(K, V)>, k: K::V) -> V
    decreases s.len(),
{
    if s.len() == 0 {
        arbitrary()
    } else if s[0].0@ == k {
        s[0].1
    } else {
        first_value(s.skip(1), k)
    }
}

proof fn first_value_at<K: View, V>(s: Seq<(K, V)>, k: K::V, i: int)
    requires
        0 <= i < s.len(),
        s[i].0@ == k,
        forall|j: int| 0 <= j < i ==> (#[trigger] s[j]).0@ != k,
    ensures
        first_value(s, k) == s[i].1,
    decreases s.len(),
{
    if i > 0 {
        assert(s[0].0@ != k);
        assert forall|j: int| 0 <= j < i - 1 implies (#[trigger] s.skip(1)[j]).0@ != k by {
            assert(s.skip(1)[j] == s[j + 1]);
        }
        first_value_at(s.skip(1), k, i - 1);
    }
}

proof fn first_index<K: View, V>(s: Seq<(K, V)>, k: K::V) -> (i: int)
    requires
        holds_key(s, k),
    ensures
        0 <= i < s.len(),
        s[i].0@ == k,
        forall|j: int| 0 <= j < i ==> (#[trigger] s[j]).0@ != k,
    decreases s.len(),
{
    if s[0].0@ == k {
        0
    } else {
        let w = choose|w: int| 0 <= w < s.len() && (#[trigger] s[w]).0@ == k;
        assert(s.skip(1)[w - 1] == s[w]);
        let i = first_index(s.skip(1), k);
        assert forall|j: int| 0 <= j < i + 1 implies (#[trigger] s[j]).0@ != k by {
            if j > 0 {
                assert(s.skip(1)[j - 1] == s[j]);
            }
        }
        i + 1
    }
}

/// The map that a vector of entries stands for.
closed spec fn map_of<K: View, V>(s: Seq<(K, V)>) -> Map<K::V, V> {
    Map::new(|k: K::V| holds_key(s, k), |k: K::V| first_value(s, k))
}

proof fn update_is_insert<K: View, V>(before: Seq<(K, V)>, k: K::V, i: int, entry: (K, V))
    requires
        0 <= i < before.len(),
        before[i].0@ == k,
        entry.0@ == k,
        forall|j: int| 0 <= j < i ==> (#[trigger] before[j]).0@ != k,
    ensures
        map_of(before.update(i, entry)) == map_of(before).insert(k, entry.1),
{
    let after = before.update(i, entry);
    let value = entry.1;
    assert forall|q: K::V| holds_key(after, q) == (q == k || holds_key(before, q)) by {
        if holds_key(before, q) {
            let w = choose|w: int| 0 <= w < before.len() && (#[trigger] before[w]).0@ == q;
            assert(after[w].0@ == q);
        }
        if holds_key(after, q) {
            let w = choose|w: int| 0 <= w < after.len() && (#[trigger] after[w]).0@ == q;
            assert(before[w].0@ == q);
        }
        assert(after[i].0@ == k);
    }
    assert forall|q: K::V| holds_key(after, q) implies first_value(after, q) == (if q == k {
        value
    } else {
        first_value(before, q)
    }) by {
        let w = first_index(after, q);
        first_value_at(after, q, w);
        if q == k {
            assert(before[w].0@ == k);
            assert(after[i].0@ == k);
            assert(w == i);
        } else {
            assert forall|j: int| 0 <= j < w implies (#[trigger] before[j]).0@ != q by {
                assert(after[j].0@ != q);
            }
            assert(before[w] == after[w]);
            first_value_at(before, q, w);
        }
    }
    assert(map_of(after) =~= map_of(before).insert(k, value));
}

impl<K: LedgerKey, V> View for Table<K, V> {
    type V = Map<K::V, V>;

    closed spec fn view(&self) -> Map<K::V, V> {
        map_of(self.entries@)
    }
}

impl<K: LedgerKey, V> Table<K, V> {
    /// Whether the table has no entries.
    pub open spec fn blank(self) -> bool {
        self@ == Map::<K::V, V>::empty()
    }

    /// A table without entries.
    pub fn new() -> (t: Self)
        ensures
            t.blank(),
            t@ == Map::<K::V, V>::empty(),
    {
        let t = Table { entries: Vec::new() };
        assert(t@ =~= Map::<K::V, V>::empty());
        t
    }

    fn find(&self, key: &K) -> (r: Option<usize>)
        ensures
            match r {
                Some(i) => {
                    &&& i < self.entries@.len()
                    &&& self.entries@[i as int].0@ == key@
                    &&& self@.contains_key(key@)
                    &&& self@[key@] == self.entries@[i as int].1
                    &&& forall|j: int| 0 <= j < i ==> (#[trigger] self.entries@[j]).0@ != key@
                },
                None => {
                    &&& !self@.contains_key(key@)
                    &&& forall|j: int|
                        0 <= j < self.entries@.len() ==> (#[trigger] self.entries@[j]).0@ != key@
                },
            },
    {
        let mut i: usize = 0;
        while i < self.entries.len()
            invariant
                0 <= i <= self.entries@.len(),
                forall|j: int| 0 <= j < i ==> (#[trigger] self.entries@[j]).0@ != key@,
            decreases self.entries@.len() - i,
        {
            if self.entries[i].0.same(key) {
                proof {
                    first_value_at(self.entries@, key@, i as int);
                }
                return Some(i);
            }
            i = i + 1;
        }
        None
    }

    /// The value stored under `key`.
    pub fn get(&self, key: &K) -> (r: Option<&V>)
        ensures
            r is Some <==> self@.contains_key(key@),
            r is Some ==> *r->0 == self@[key@],
    {
        match self.find(key) {
            Some(i) => Some(&self.entries[i].1),
            None => None,
        }
    }

    /// Whether a value is stored under `key`.
    pub fn has(&self, key: &K) -> (r: bool)
        ensures
            r == self@.contains_key(key@),
    {
        self.find(key).is_some()
    }

    /// The value stored under `key`, for changing it in place.
    pub fn get_mut(&mut self, key: &K) -> (r: Option<&mut V>)
        ensures
            match r {
                Some(v) => old(self)@.contains_key(key@) && *v == old(self)@[key@] && final(self)@
                    == old(self)@.insert(key@, *final(v)),
                None => !old(self)@.contains_key(key@) && *final(self) == *old(self),
            },
    {
        let ghost before = self.entries@;
        match self.find(key) {
            Some(i) => {
                proof {
                    assert forall|value: V|
                        map_of(#[trigger] before.update(i as int, (before[i as int].0, value)))
                            == map_of(before).insert(key@, value) by {
                        update_is_insert(before, key@, i as int, (before[i as int].0, value));
                    }
                }
                Some(&mut self.entries[i].1)
            },
            None => None,
        }
    }

    /// Stores `value` under `key`, replacing what was there.
    pub fn set(&mut self, key: K, value: V)
        ensures
            final(self)@ == old(self)@.insert(key@, value),
    {
        let ghost before = self.entries@;
        let ghost k = key@;
        match self.find(&key) {
            Some(i) => {
                self.entries.set(i, (key, value));
                proof {
                    update_is_insert(before, k, i as int, (key, value));
                }
            },
            None => {
                self.entries.push((key, value));
                proof {
                    let after = self.entries@;
                    let n = before.len() as int;
                    assert forall|q: K::V| holds_key(after, q) == (q == k || holds_key(before, q)) by {
                        if holds_key(before, q) {
                            let w = choose|w: int| 0 <= w < before.len() && (#[trigger] before[w]).0@ == q;
                            assert(after[w].0@ == q);
                        }
                        if holds_key(after, q) {
                            let w = choose|w: int| 0 <= w < after.len() && (#[trigger] after[w]).0@ == q;
                            if w < n {
                                assert(before[w].0@ == q);
                            }
                        }
                        assert(after[n].0@ == k);
                    }
                    assert forall|q: K::V| holds_key(after, q) implies first_value(after, q) == (if q == k {
                        value
                    } else {
                        first_value(before, q)
                    }) by {
                        let w = first_index(after, q);
                        first_value_at(after, q, w);
                        if w < n {
                            assert(before[w] == after[w]);
                            assert forall|j: int| 0 <= j < w implies (#[trigger] before[j]).0@ != q by {
                                assert(after[j].0@ != q);
                            }
                            first_value_at(before, q, w);
                        }
                    }
                    assert(self@ =~= old(self)@.insert(k, value));
                }
            },
        }
    }

    /// Drops whatever is stored under `key`.
    pub fn remove(&mut self, key: &K)
        ensures
            final(self)@ == old(self)@.remove(key@),
    {
        let ghost k = key@;
        loop
            invariant
                k == key@,
                self@.remove(k) == old(self)@.remove(k),
            ensures
                self@ == old(self)@.remove(k),
            decreases self.entries@.len(),
        {
            let found = self.find(key);
            match found {
                Some(i) => {
                    let ghost before = self.entries@;
                    let ghost view_before = self@;
                    self.entries.remove(i);
                    proof {
                        let after = self.entries@;
                        assert forall|q: K::V| q != k implies holds_key(after, q) == holds_key(before, q) by {
                            if holds_key(before, q) {
                                let w = choose|w: int| 0 <= w < before.len() && (#[trigger] before[w]).0@ == q;
                                let v = if w < i { w } else { w - 1 };
                                assert(after[v].0@ == q);
                            }
                            if holds_key(after, q) {
                                let w = choose|w: int| 0 <= w < after.len() && (#[trigger] after[w]).0@ == q;
                                let v = if w < i { w } else { w + 1 };
                                assert(before[v].0@ == q);
                            }
                        }
                        assert forall|q: K::V| q != k && holds_key(after, q) implies first_value(after, q)
                            == first_value(before, q) by {
                            let w = first_index(after, q);
                            first_value_at(after, q, w);
                            let v = if w < i { w } else { w + 1 };
                            assert(before[v] == after[w]);
                            assert forall|j: int| 0 <= j < v implies (#[trigger] before[j]).0@ != q by {
                                if j < i {
                                    assert(after[j] == before[j]);
                                } else if j > i {
                                    assert(after[j - 1] == before[j]);
                                }
                            }
                            first_value_at(before, q, v);
                        }
                        assert(self@.remove(k) =~= view_before.remove(k));
                    }
                },
                None => {
                    assert(self@ =~= self@.remove(k));
                    break;
                },
            }
        }
    }
}

} // verus!
