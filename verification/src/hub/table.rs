//! Small keyed tables for room state: connection-keyed entries and
//! text-keyed entries. Each keeps its entries in insertion order, so every
//! walk over a table is deterministic, and no key occurs twice.
use vstd::prelude::*;
use crate::text::same_text;

verus! {

broadcast use vstd::string::group_string_axioms;

/// Entries keyed by connection id, in insertion order.
#[derive(Debug)]
pub struct ConnTable<V> {
    entries: Vec<(u64, V)>,
}

impl<V> ConnTable<V> {
    #[verifier::type_invariant]
    closed spec fn distinct_keys(self) -> bool {
        forall|i: int, j: int|
            0 <= i < j < self.entries@.len() ==> #[trigger] self.entries@[i].0
                != #[trigger] self.entries@[j].0
    }

    /// The keys in insertion order.
    pub closed spec fn key_seq(&self) -> Seq<u64> {
        self.entries@.map_values(|e: (u64, V)| e.0)
    }

    /// The values in insertion order.
    pub closed spec fn val_seq(&self) -> Seq<V> {
        self.entries@.map_values(|e: (u64, V)| e.1)
    }
}

impl<V> View for ConnTable<V> {
    type V = Map<u64, V>;

    closed spec fn view(&self) -> Map<u64, V> {
        Map::new(
            |k: u64| self.key_seq().contains(k),
            |k: u64| self.val_seq()[self.key_seq().index_of(k)],
        )
    }
}

impl<V: Clone> Clone for ConnTable<V> {
    /// A table with the same keys in the same order, each value cloned.
    fn clone(&self) -> (r: Self)
        ensures
            r.key_seq() == self.key_seq(),
    {
        proof {
            use_type_invariant(self);
        }
        let mut entries: Vec<(u64, V)> = Vec::new();
        let mut i: usize = 0;
        while i < self.entries.len()
            invariant
                i <= self.entries@.len(),
                entries@.len() == i,
                forall|k: int| 0 <= k < i ==> #[trigger] entries@[k].0 == self.entries@[k].0,
                self.distinct_keys(),
            decreases self.entries@.len() - i,
        {
            entries.push((self.entries[i].0, self.entries[i].1.clone()));
            i = i + 1;
        }
        let r = ConnTable { entries };
        assert(r.key_seq() =~= self.key_seq());
        r
    }
}


/// The facts that tie a table's map to its entry order.
pub open spec fn table_layout<V>(t: ConnTable<V>) -> bool {
    &&& t.key_seq().len() == t.val_seq().len()
    &&& forall|i: int, j: int|
        0 <= i < j < t.key_seq().len() ==> #[trigger] t.key_seq()[i] != #[trigger] t.key_seq()[j]
    &&& forall|i: int|
        0 <= i < t.key_seq().len() ==> t@.contains_key(#[trigger] t.key_seq()[i]) && t@[t.key_seq()[i]]
            == t.val_seq()[i]
    &&& forall|k: u64| #[trigger] t@.contains_key(k) ==> t.key_seq().contains(k)
}

/// The number of entries, in table order, whose key and value satisfy `p`.
pub open spec fn count_entries<V>(keys: Seq<u64>, vals: Seq<V>, p: spec_fn(u64, V) -> bool) -> nat
    decreases keys.len(),
{
    if keys.len() == 0 || vals.len() == 0 {
        0
    } else {
        count_entries(keys.drop_last(), vals.drop_last(), p) + if p(keys.last(), vals.last()) {
            1nat
        } else {
            0nat
        }
    }
}

/// The keys of a map whose entries satisfy `p`.
pub open spec fn keys_where<V>(m: Map<u64, V>, p: spec_fn(u64, V) -> bool) -> Set<u64> {
    m.dom().filter(|k: u64| p(k, m[k]))
}

proof fn lemma_count_prefix<V>(t: ConnTable<V>, p: spec_fn(u64, V) -> bool, n: int)
    requires
        table_layout(t),
        0 <= n <= t.key_seq().len(),
    ensures
        t.key_seq().subrange(0, n).to_set().filter(|k: u64| p(k, t@[k])).finite(),
        count_entries(t.key_seq().subrange(0, n), t.val_seq().subrange(0, n), p) == t.key_seq().subrange(
            0,
            n,
        ).to_set().filter(|k: u64| p(k, t@[k])).len(),
    decreases n,
{
    broadcast use {vstd::set::group_set_axioms, vstd::seq_lib::seq_to_set_is_finite};

    let ks = t.key_seq();
    let vs = t.val_seq();
    let f = |k: u64| p(k, t@[k]);
    if n == 0 {
        assert(ks.subrange(0, 0).to_set() =~= Set::<u64>::empty());
        assert(Set::<u64>::empty().filter(f) =~= Set::<u64>::empty());
    } else {
        lemma_count_prefix(t, p, n - 1);
        let kp = ks.subrange(0, n);
        let vp = vs.subrange(0, n);
        let prev = ks.subrange(0, n - 1);
        let k = ks[n - 1];
        assert(kp.drop_last() =~= prev);
        assert(vp.drop_last() =~= vs.subrange(0, n - 1));
        assert(kp.last() == k);
        assert(vp.last() == vs[n - 1]);
        assert(kp.to_set() =~= prev.to_set().insert(k)) by {
            assert forall|x: u64| kp.contains(x) <==> prev.contains(x) || x == k by {
                if kp.contains(x) {
                    let i = choose|i: int| 0 <= i < kp.len() && kp[i] == x;
                    if i < n - 1 {
                        assert(prev[i] == x);
                    }
                }
                if prev.contains(x) {
                    let i = choose|i: int| 0 <= i < prev.len() && prev[i] == x;
                    assert(kp[i] == x);
                }
                if x == k {
                    assert(kp[n - 1] == x);
                }
            }
        }
        assert(!prev.to_set().contains(k)) by {
            if prev.contains(k) {
                let i = choose|i: int| 0 <= i < prev.len() && prev[i] == k;
                assert(ks[i] == ks[n - 1]);
            }
        }
        assert(t@[k] == vs[n - 1]);
        if p(k, vs[n - 1]) {
            assert(kp.to_set().filter(f) =~= prev.to_set().filter(f).insert(k));
        } else {
            assert(kp.to_set().filter(f) =~= prev.to_set().filter(f));
        }
    }
}

/// Counting a table's entries in table order that satisfy `p` counts the
/// keys of its map whose entries satisfy `p`: the order of a walk over the
/// table changes no count.
pub proof fn lemma_count_entries_matches_map<V>(t: ConnTable<V>, p: spec_fn(u64, V) -> bool)
    requires
        table_layout(t),
    ensures
        count_entries(t.key_seq(), t.val_seq(), p) == keys_where(t@, p).len(),
{
    let ks = t.key_seq();
    let vs = t.val_seq();
    lemma_count_prefix(t, p, ks.len() as int);
    assert(ks.subrange(0, ks.len() as int) =~= ks);
    assert(vs.subrange(0, ks.len() as int) =~= vs);
    assert(keys_where(t@, p) =~= ks.to_set().filter(|k: u64| p(k, t@[k]))) by {
        assert forall|k: u64| t@.contains_key(k) <==> ks.contains(k) by {
            if ks.contains(k) {
                let i = choose|i: int| 0 <= i < ks.len() && ks[i] == k;
                assert(t@.contains_key(ks[i]));
            }
        }
    }
}

impl<V> ConnTable<V> {
    proof fn lemma_layout(&self)
        requires
            self.distinct_keys(),
        ensures
            table_layout(*self),
    {
        assert forall|i: int| 0 <= i < self.key_seq().len() implies self@.contains_key(
            #[trigger] self.key_seq()[i],
        ) && self@[self.key_seq()[i]] == self.val_seq()[i] by {
            let k = self.key_seq()[i];
            assert(self.key_seq().contains(k));
            let j = self.key_seq().index_of(k);
            assert(self.entries@[j].0 == self.entries@[i].0);
            if i != j {
                if i < j {
                    assert(self.entries@[i].0 != self.entries@[j].0);
                } else {
                    assert(self.entries@[j].0 != self.entries@[i].0);
                }
            }
        }
    }

    /// An empty table.
    pub fn new() -> (t: Self)
        ensures
            t@ == Map::<u64, V>::empty(),
            t.key_seq().len() == 0,
    {
        let t = ConnTable { entries: Vec::new() };
        assert(t@ =~= Map::<u64, V>::empty());
        t
    }

    /// The number of entries; also states how the map and the entry order
    /// relate.
    pub fn len(&self) -> (r: usize)
        ensures
            r == self.key_seq().len(),
            table_layout(*self),
    {
        proof {
            use_type_invariant(self);
            self.lemma_layout();
        }
        self.entries.len()
    }

    /// True when the table has no entry.
    pub fn is_empty(&self) -> (r: bool)
        ensures
            r == (self@.dom() == Set::<u64>::empty()),
            table_layout(*self),
    {
        let n = self.len();
        if n == 0 {
            assert(self@.dom() =~= Set::<u64>::empty());
        } else {
            assert(self@.dom().contains(self.key_seq()[0]));
        }
        n == 0
    }

    /// The key of the `i`-th entry.
    pub fn key_at(&self, i: usize) -> (k: u64)
        requires
            i < self.key_seq().len(),
        ensures
            k == self.key_seq()[i as int],
    {
        self.entries[i].0
    }

    /// The value of the `i`-th entry.
    pub fn value_at(&self, i: usize) -> (v: &V)
        requires
            i < self.key_seq().len(),
        ensures
            *v == self.val_seq()[i as int],
    {
        &self.entries[i].1
    }

    fn find(&self, k: u64) -> (r: Option<usize>)
        ensures
            match r {
                Some(i) => i < self.key_seq().len() && self.key_seq()[i as int] == k,
                None => !self.key_seq().contains(k),
            },
    {
        let mut i: usize = 0;
        while i < self.entries.len()
            invariant
                i <= self.entries@.len(),
                forall|j: int| 0 <= j < i ==> self.entries@[j].0 != k,
            decreases self.entries@.len() - i,
        {
            if self.entries[i].0 == k {
                return Some(i);
            }
            i = i + 1;
        }
        proof {
            if self.key_seq().contains(k) {
                let j = self.key_seq().index_of(k);
                assert(self.entries@[j].0 == k);
            }
        }
        None
    }

    /// True when `k` has an entry.
    pub fn contains_key(&self, k: &u64) -> (r: bool)
        ensures
            r == self@.contains_key(*k),
    {
        self.find(*k).is_some()
    }

    /// The value stored under `k`.
    pub fn get(&self, k: &u64) -> (r: Option<&V>)
        ensures
            match r {
                Some(v) => self@.contains_key(*k) && *v == self@[*k],
                None => !self@.contains_key(*k),
            },
    {
        proof {
            use_type_invariant(self);
            self.lemma_layout();
        }
        match self.find(*k) {
            Some(i) => Some(&self.entries[i].1),
            None => None,
        }
    }

    /// Stores `v` under `k`: an existing entry keeps its place, a new key
    /// goes last.
    pub fn insert(&mut self, k: u64, v: V)
        ensures
            final(self)@ == old(self)@.insert(k, v),
            old(self)@.contains_key(k) ==> final(self).key_seq() == old(self).key_seq(),
            !old(self)@.contains_key(k) ==> final(self).key_seq() == old(self).key_seq().push(k),
            table_layout(*final(self)),
    {
        proof {
            use_type_invariant(&*self);
            self.lemma_layout();
        }
        let ghost old_t = *self;
        match self.find(k) {
            Some(i) => {
                let mut entries = Vec::new();
                std::mem::swap(&mut entries, &mut self.entries);
                entries.set(i, (k, v));
                self.entries = entries;
                proof {
                    assert(self.key_seq() =~= old_t.key_seq());
                    use_type_invariant(&*self);
                    self.lemma_layout();
                    assert forall|x: u64| #[trigger]
                        self@.contains_key(x) == old_t@.insert(k, v).contains_key(x) by {
                        assert(self.key_seq().contains(x) == old_t.key_seq().contains(x));
                    }
                    assert forall|x: u64| #[trigger] self@.contains_key(x) implies self@[x]
                        == old_t@.insert(k, v)[x] by {
                        let j = self.key_seq().index_of(x);
                        assert(self@[self.key_seq()[j]] == self.val_seq()[j]);
                        if x != k {
                            assert(old_t@[old_t.key_seq()[j]] == old_t.val_seq()[j]);
                        }
                    }
                    assert(self@ =~= old_t@.insert(k, v));
                }
            },
            None => {
                let mut entries = Vec::new();
                std::mem::swap(&mut entries, &mut self.entries);
                entries.push((k, v));
                proof {
                    assert forall|a: int, b: int| 0 <= a < b < entries@.len() implies #[trigger] entries@[a].0
                        != #[trigger] entries@[b].0 by {
                        if b == entries@.len() - 1 {
                            assert(old_t.key_seq()[a] == entries@[a].0);
                        }
                    }
                }
                self.entries = entries;
                proof {
                    assert(self.key_seq() =~= old_t.key_seq().push(k));
                    assert(self.val_seq() =~= old_t.val_seq().push(v));
                    use_type_invariant(&*self);
                    self.lemma_layout();
                    let n = old_t.key_seq().len() as int;
                    assert forall|x: u64| #[trigger]
                        self@.contains_key(x) == old_t@.insert(k, v).contains_key(x) by {
                        if old_t.key_seq().contains(x) {
                            let j = old_t.key_seq().index_of(x);
                            assert(self.key_seq()[j] == x);
                        }
                        if self.key_seq().contains(x) && x != k {
                            let j = self.key_seq().index_of(x);
                            assert(j != n);
                            assert(old_t.key_seq()[j] == x);
                        }
                        assert(self.key_seq()[n] == k);
                    }
                    assert forall|x: u64| #[trigger] self@.contains_key(x) implies self@[x]
                        == old_t@.insert(k, v)[x] by {
                        let j = self.key_seq().index_of(x);
                        assert(self@[self.key_seq()[j]] == self.val_seq()[j]);
                        if x != k {
                            assert(j != n);
                            assert(old_t@[old_t.key_seq()[j]] == old_t.val_seq()[j]);
                        } else {
                            assert(self@[self.key_seq()[n]] == self.val_seq()[n]);
                        }
                    }
                    assert(self@ =~= old_t@.insert(k, v));
                }
            },
        }
    }

    /// Removes the entry under `k`, returning its value; the other entries
    /// keep their order.
    pub fn remove(&mut self, k: &u64) -> (r: Option<V>)
        ensures
            final(self)@ == old(self)@.remove(*k),
            match r {
                Some(v) => old(self)@.contains_key(*k) && v == old(self)@[*k],
                None => !old(self)@.contains_key(*k),
            },
            old(self)@.contains_key(*k) ==> exists|i: int|
                0 <= i < old(self).key_seq().len() && old(self).key_seq()[i] == *k
                    && final(self).key_seq() == old(self).key_seq().remove(i)
                    && final(self).val_seq() == old(self).val_seq().remove(i),
            !old(self)@.contains_key(*k) ==> final(self).key_seq() == old(self).key_seq()
                && final(self).val_seq() == old(self).val_seq(),
    {
        proof {
            use_type_invariant(&*self);
            self.lemma_layout();
        }
        let ghost old_t = *self;
        match self.find(*k) {
            Some(i) => {
                let mut entries = Vec::new();
                std::mem::swap(&mut entries, &mut self.entries);
                let e = entries.remove(i);
                proof {
                    assert forall|a: int, b: int| 0 <= a < b < entries@.len() implies #[trigger] entries@[a].0
                        != #[trigger] entries@[b].0 by {
                        let a2 = if a < i { a } else { a + 1 };
                        let b2 = if b < i { b } else { b + 1 };
                        assert(entries@[a] == old_t.entries@[a2]);
                        assert(entries@[b] == old_t.entries@[b2]);
                    }
                }
                self.entries = entries;
                proof {
                    assert(self.key_seq() =~= old_t.key_seq().remove(i as int));
                    assert(self.val_seq() =~= old_t.val_seq().remove(i as int));
                    use_type_invariant(&*self);
                    self.lemma_layout();
                    assert forall|x: u64| #[trigger]
                        self@.contains_key(x) == old_t@.remove(*k).contains_key(x) by {
                        if self.key_seq().contains(x) {
                            let j = self.key_seq().index_of(x);
                            if j < i {
                                assert(old_t.key_seq()[j] == x);
                            } else {
                                assert(old_t.key_seq()[j + 1] == x);
                                assert(old_t.key_seq()[j + 1] != old_t.key_seq()[i as int]);
                            }
                        }
                        if old_t.key_seq().contains(x) && x != *k {
                            let j = old_t.key_seq().index_of(x);
                            if j < i {
                                assert(self.key_seq()[j] == x);
                            } else {
                                assert(j != i);
                                assert(self.key_seq()[j - 1] == x);
                            }
                        }
                    }
                    assert forall|x: u64| #[trigger] self@.contains_key(x) implies self@[x]
                        == old_t@.remove(*k)[x] by {
                        let j = self.key_seq().index_of(x);
                        assert(self@[self.key_seq()[j]] == self.val_seq()[j]);
                        if j < i {
                            assert(old_t@[old_t.key_seq()[j]] == old_t.val_seq()[j]);
                        } else {
                            assert(old_t@[old_t.key_seq()[j + 1]] == old_t.val_seq()[j + 1]);
                        }
                    }
                    assert(self@ =~= old_t@.remove(*k));
                    assert(old_t@[old_t.key_seq()[i as int]] == old_t.val_seq()[i as int]);
                }
                Some(e.1)
            },
            None => {
                proof {
                    assert(old_t@.remove(*k) =~= old_t@);
                }
                None
            },
        }
    }

    /// The smallest key, if any.
    pub fn min_key(&self) -> (r: Option<u64>)
        ensures
            match r {
                Some(m) => self@.contains_key(m) && forall|k: u64| #[trigger]
                    self@.contains_key(k) ==> m <= k,
                None => self@.dom() == Set::<u64>::empty(),
            },
    {
        let n = self.len();
        if n == 0 {
            assert(self@.dom() =~= Set::<u64>::empty());
            return None;
        }
        let mut best = self.key_at(0);
        let mut i: usize = 1;
        while i < n
            invariant
                1 <= i <= n,
                n == self.key_seq().len(),
                self.key_seq().contains(best),
                forall|j: int| 0 <= j < i ==> best <= #[trigger] self.key_seq()[j],
            decreases n - i,
        {
            let k = self.key_at(i);
            if k < best {
                best = k;
            }
            i = i + 1;
        }
        proof {
            assert forall|k: u64| #[trigger] self@.contains_key(k) implies best <= k by {
                let j = self.key_seq().index_of(k);
                assert(self.key_seq()[j] == k);
            }
            let j = self.key_seq().index_of(best);
            assert(self@.contains_key(self.key_seq()[j]));
        }
        Some(best)
    }
}

/// Entries keyed by text (compared character for character), in insertion
/// order.
#[derive(Debug)]
pub struct TextTable<V> {
    entries: Vec<(String, V)>,
}

impl<V> TextTable<V> {
    #[verifier::type_invariant]
    closed spec fn distinct_keys(self) -> bool {
        forall|i: int, j: int|
            0 <= i < j < self.entries@.len() ==> #[trigger] self.entries@[i].0@
                != #[trigger] self.entries@[j].0@
    }

    /// The keys in insertion order.
    pub closed spec fn key_seq(&self) -> Seq<Seq<char>> {
        self.entries@.map_values(|e: (String, V)| e.0@)
    }

    /// The values in insertion order.
    pub closed spec fn val_seq(&self) -> Seq<V> {
        self.entries@.map_values(|e: (String, V)| e.1)
    }
}

impl<V> View for TextTable<V> {
    type V = Map<Seq<char>, V>;

    closed spec fn view(&self) -> Map<Seq<char>, V> {
        Map::new(
            |k: Seq<char>| self.key_seq().contains(k),
            |k: Seq<char>| self.val_seq()[self.key_seq().index_of(k)],
        )
    }
}

impl<V: Clone> Clone for TextTable<V> {
    /// A table with the same keys in the same order, each value cloned.
    fn clone(&self) -> (r: Self)
        ensures
            r.key_seq() == self.key_seq(),
    {
        proof {
            use_type_invariant(self);
        }
        let mut entries: Vec<(String, V)> = Vec::new();
        let mut i: usize = 0;
        while i < self.entries.len()
            invariant
                i <= self.entries@.len(),
                entries@.len() == i,
                forall|k: int| 0 <= k < i ==> #[trigger] entries@[k].0@ == self.entries@[k].0@,
                self.distinct_keys(),
            decreases self.entries@.len() - i,
        {
            entries.push((self.entries[i].0.clone(), self.entries[i].1.clone()));
            i = i + 1;
        }
        let r = TextTable { entries };
        assert(r.key_seq() =~= self.key_seq());
        r
    }
}


/// The facts that tie a table's map to its entry order.
pub open spec fn text_table_layout<V>(t: TextTable<V>) -> bool {
    &&& t.key_seq().len() == t.val_seq().len()
    &&& forall|i: int, j: int|
        0 <= i < j < t.key_seq().len() ==> #[trigger] t.key_seq()[i] != #[trigger] t.key_seq()[j]
    &&& forall|i: int|
        0 <= i < t.key_seq().len() ==> t@.contains_key(#[trigger] t.key_seq()[i]) && t@[t.key_seq()[i]]
            == t.val_seq()[i]
    &&& forall|k: Seq<char>| #[trigger] t@.contains_key(k) ==> t.key_seq().contains(k)
}

impl<V> TextTable<V> {
    proof fn lemma_layout(&self)
        requires
            self.distinct_keys(),
        ensures
            text_table_layout(*self),
    {
        assert forall|i: int| 0 <= i < self.key_seq().len() implies self@.contains_key(
            #[trigger] self.key_seq()[i],
        ) && self@[self.key_seq()[i]] == self.val_seq()[i] by {
            let k = self.key_seq()[i];
            assert(self.key_seq().contains(k));
            let j = self.key_seq().index_of(k);
            assert(self.entries@[j].0@ == self.entries@[i].0@);
            if i != j {
                if i < j {
                    assert(self.entries@[i].0@ != self.entries@[j].0@);
                } else {
                    assert(self.entries@[j].0@ != self.entries@[i].0@);
                }
            }
        }
    }

    /// An empty table.
    pub fn new() -> (t: Self)
        ensures
            t@ == Map::<Seq<char>, V>::empty(),
            t.key_seq().len() == 0,
    {
        let t = TextTable { entries: Vec::new() };
        assert(t@ =~= Map::<Seq<char>, V>::empty());
        t
    }

    /// The number of entries; also states how the map and the entry order
    /// relate.
    pub fn len(&self) -> (r: usize)
        ensures
            r == self.key_seq().len(),
            text_table_layout(*self),
    {
        proof {
            use_type_invariant(self);
            self.lemma_layout();
        }
        self.entries.len()
    }

    /// True when the table has no entry.
    pub fn is_empty(&self) -> (r: bool)
        ensures
            r == (self@.dom() == Set::<Seq<char>>::empty()),
            text_table_layout(*self),
    {
        let n = self.len();
        if n == 0 {
            assert(self@.dom() =~= Set::<Seq<char>>::empty());
        } else {
            assert(self@.dom().contains(self.key_seq()[0]));
        }
        n == 0
    }

    /// The key of the `i`-th entry.
    pub fn key_at(&self, i: usize) -> (k: &String)
        requires
            i < self.key_seq().len(),
        ensures
            k@ == self.key_seq()[i as int],
    {
        &self.entries[i].0
    }

    /// The value of the `i`-th entry.
    pub fn value_at(&self, i: usize) -> (v: &V)
        requires
            i < self.key_seq().len(),
        ensures
            *v == self.val_seq()[i as int],
    {
        &self.entries[i].1
    }

    fn find(&self, k: &str) -> (r: Option<usize>)
        ensures
            match r {
                Some(i) => i < self.key_seq().len() && self.key_seq()[i as int] == k@,
                None => !self.key_seq().contains(k@),
            },
    {
        let mut i: usize = 0;
        while i < self.entries.len()
            invariant
                i <= self.entries@.len(),
                forall|j: int| 0 <= j < i ==> self.entries@[j].0@ != k@,
            decreases self.entries@.len() - i,
        {
            if same_text(self.entries[i].0.as_str(), k) {
                return Some(i);
            }
            i = i + 1;
        }
        proof {
            if self.key_seq().contains(k@) {
                let j = self.key_seq().index_of(k@);
                assert(self.entries@[j].0@ == k@);
            }
        }
        None
    }

    /// True when `k` has an entry.
    pub fn contains_key(&self, k: &str) -> (r: bool)
        ensures
            r == self@.contains_key(k@),
    {
        self.find(k).is_some()
    }

    /// The value stored under `k`.
    pub fn get(&self, k: &str) -> (r: Option<&V>)
        ensures
            match r {
                Some(v) => self@.contains_key(k@) && *v == self@[k@],
                None => !self@.contains_key(k@),
            },
    {
        proof {
            use_type_invariant(self);
            self.lemma_layout();
        }
        match self.find(k) {
            Some(i) => Some(&self.entries[i].1),
            None => None,
        }
    }

    /// Stores `v` under `k`: an existing entry keeps its place, a new key
    /// goes last.
    pub fn insert(&mut self, k: String, v: V)
        ensures
            final(self)@ == old(self)@.insert(k@, v),
            old(self)@.contains_key(k@) ==> final(self).key_seq() == old(self).key_seq(),
            !old(self)@.contains_key(k@) ==> final(self).key_seq() == old(self).key_seq().push(k@),
    {
        proof {
            use_type_invariant(&*self);
            self.lemma_layout();
        }
        let ghost old_t = *self;
        let ghost kv = k@;
        match self.find(k.as_str()) {
            Some(i) => {
                let mut entries = Vec::new();
                std::mem::swap(&mut entries, &mut self.entries);
                entries.set(i, (k, v));
                self.entries = entries;
                proof {
                    assert(self.key_seq() =~= old_t.key_seq());
                    use_type_invariant(&*self);
                    self.lemma_layout();
                    assert forall|x: Seq<char>| #[trigger]
                        self@.contains_key(x) == old_t@.insert(kv, v).contains_key(x) by {
                        assert(self.key_seq().contains(x) == old_t.key_seq().contains(x));
                    }
                    assert forall|x: Seq<char>| #[trigger] self@.contains_key(x) implies self@[x]
                        == old_t@.insert(kv, v)[x] by {
                        let j = self.key_seq().index_of(x);
                        assert(self@[self.key_seq()[j]] == self.val_seq()[j]);
                        if x != kv {
                            assert(old_t@[old_t.key_seq()[j]] == old_t.val_seq()[j]);
                        }
                    }
                    assert(self@ =~= old_t@.insert(kv, v));
                }
            },
            None => {
                let mut entries = Vec::new();
                std::mem::swap(&mut entries, &mut self.entries);
                entries.push((k, v));
                proof {
                    assert forall|a: int, b: int| 0 <= a < b < entries@.len() implies #[trigger] entries@[a].0@
                        != #[trigger] entries@[b].0@ by {
                        if b == entries@.len() - 1 {
                            assert(old_t.key_seq()[a] == entries@[a].0@);
                        }
                    }
                }
                self.entries = entries;
                proof {
                    assert(self.key_seq() =~= old_t.key_seq().push(kv));
                    assert(self.val_seq() =~= old_t.val_seq().push(v));
                    use_type_invariant(&*self);
                    self.lemma_layout();
                    let n = old_t.key_seq().len() as int;
                    assert forall|x: Seq<char>| #[trigger]
                        self@.contains_key(x) == old_t@.insert(kv, v).contains_key(x) by {
                        if old_t.key_seq().contains(x) {
                            let j = old_t.key_seq().index_of(x);
                            assert(self.key_seq()[j] == x);
                        }
                        if self.key_seq().contains(x) && x != kv {
                            let j = self.key_seq().index_of(x);
                            assert(j != n);
                            assert(old_t.key_seq()[j] == x);
                        }
                        assert(self.key_seq()[n] == kv);
                    }
                    assert forall|x: Seq<char>| #[trigger] self@.contains_key(x) implies self@[x]
                        == old_t@.insert(kv, v)[x] by {
                        let j = self.key_seq().index_of(x);
                        assert(self@[self.key_seq()[j]] == self.val_seq()[j]);
                        if x != kv {
                            assert(j != n);
                            assert(old_t@[old_t.key_seq()[j]] == old_t.val_seq()[j]);
                        } else {
                            assert(self@[self.key_seq()[n]] == self.val_seq()[n]);
                        }
                    }
                    assert(self@ =~= old_t@.insert(kv, v));
                }
            },
        }
    }

    /// Removes the entry under `k`, returning its value; the other entries
    /// keep their order.
    pub fn remove(&mut self, k: &str) -> (r: Option<V>)
        ensures
            final(self)@ == old(self)@.remove(k@),
            match r {
                Some(v) => old(self)@.contains_key(k@) && v == old(self)@[k@],
                None => !old(self)@.contains_key(k@),
            },
    {
        proof {
            use_type_invariant(&*self);
            self.lemma_layout();
        }
        let ghost old_t = *self;
        let ghost kv = k@;
        match self.find(k) {
            Some(i) => {
                let mut entries = Vec::new();
                std::mem::swap(&mut entries, &mut self.entries);
                let e = entries.remove(i);
                proof {
                    assert forall|a: int, b: int| 0 <= a < b < entries@.len() implies #[trigger] entries@[a].0@
                        != #[trigger] entries@[b].0@ by {
                        let a2 = if a < i { a } else { a + 1 };
                        let b2 = if b < i { b } else { b + 1 };
                        assert(entries@[a] == old_t.entries@[a2]);
                        assert(entries@[b] == old_t.entries@[b2]);
                    }
                }
                self.entries = entries;
                proof {
                    assert(self.key_seq() =~= old_t.key_seq().remove(i as int));
                    assert(self.val_seq() =~= old_t.val_seq().remove(i as int));
                    use_type_invariant(&*self);
                    self.lemma_layout();
                    assert forall|x: Seq<char>| #[trigger]
                        self@.contains_key(x) == old_t@.remove(k@).contains_key(x) by {
                        if self.key_seq().contains(x) {
                            let j = self.key_seq().index_of(x);
                            if j < i {
                                assert(old_t.key_seq()[j] == x);
                            } else {
                                assert(old_t.key_seq()[j + 1] == x);
                                assert(old_t.key_seq()[j + 1] != old_t.key_seq()[i as int]);
                            }
                        }
                        if old_t.key_seq().contains(x) && x != k@ {
                            let j = old_t.key_seq().index_of(x);
                            if j < i {
                                assert(self.key_seq()[j] == x);
                            } else {
                                assert(j != i);
                                assert(self.key_seq()[j - 1] == x);
                            }
                        }
                    }
                    assert forall|x: Seq<char>| #[trigger] self@.contains_key(x) implies self@[x]
                        == old_t@.remove(k@)[x] by {
                        let j = self.key_seq().index_of(x);
                        assert(self@[self.key_seq()[j]] == self.val_seq()[j]);
                        if j < i {
                            assert(old_t@[old_t.key_seq()[j]] == old_t.val_seq()[j]);
                        } else {
                            assert(old_t@[old_t.key_seq()[j + 1]] == old_t.val_seq()[j + 1]);
                        }
                    }
                    assert(self@ =~= old_t@.remove(k@));
                    assert(old_t@[old_t.key_seq()[i as int]] == old_t.val_seq()[i as int]);
                }
                Some(e.1)
            },
            None => {
                proof {
                    assert(old_t@.remove(k@) =~= old_t@);
                }
                None
            },
        }
    }
}

/// A set of connection ids, in insertion order.
#[derive(Debug, Clone)]
pub struct ConnSet {
    table: ConnTable<()>,
}

impl View for ConnSet {
    type V = Set<u64>;

    closed spec fn view(&self) -> Set<u64> {
        self.table@.dom()
    }
}

impl ConnSet {
    /// The members in insertion order.
    pub closed spec fn member_seq(&self) -> Seq<u64> {
        self.table.key_seq()
    }

    /// An empty set.
    pub fn new() -> (s: Self)
        ensures
            s@ == Set::<u64>::empty(),
    {
        ConnSet { table: ConnTable::new() }
    }

    /// The number of members; also states how the set and the member order
    /// relate.
    pub fn len(&self) -> (r: usize)
        ensures
            r == self.member_seq().len(),
            forall|i: int|
                0 <= i < self.member_seq().len() ==> self@.contains(#[trigger] self.member_seq()[i]),
            forall|k: u64| #[trigger] self@.contains(k) ==> self.member_seq().contains(k),
            forall|i: int, j: int|
                0 <= i < j < self.member_seq().len() ==> #[trigger] self.member_seq()[i]
                    != #[trigger] self.member_seq()[j],
    {
        self.table.len()
    }

    /// The `i`-th member.
    pub fn member_at(&self, i: usize) -> (k: u64)
        requires
            i < self.member_seq().len(),
        ensures
            k == self.member_seq()[i as int],
    {
        self.table.key_at(i)
    }

    /// True when `k` is a member.
    pub fn contains(&self, k: &u64) -> (r: bool)
        ensures
            r == self@.contains(*k),
    {
        self.table.contains_key(k)
    }

    /// Adds `k`; true when it was not a member before.
    pub fn insert(&mut self, k: u64) -> (r: bool)
        ensures
            final(self)@ == old(self)@.insert(k),
            r == !old(self)@.contains(k),
    {
        let present = self.table.contains_key(&k);
        self.table.insert(k, ());
        proof {
            assert(self@ =~= old(self)@.insert(k));
        }
        !present
    }

    /// True when every member of `self` is a member of `other`.
    pub fn is_subset_of(&self, other: &ConnSet) -> (r: bool)
        ensures
            r == self@.subset_of(other@),
    {
        let n = self.len();
        let mut i: usize = 0;
        while i < n
            invariant
                i <= n,
                n == self.member_seq().len(),
                forall|j: int| 0 <= j < i ==> other@.contains(#[trigger] self.member_seq()[j]),
            decreases n - i,
        {
            let k = self.member_at(i);
            if !other.contains(&k) {
                return false;
            }
            i = i + 1;
        }
        proof {
            assert forall|k: u64| self@.contains(k) implies other@.contains(k) by {
                let j = self.member_seq().index_of(k);
                assert(self.member_seq()[j] == k);
            }
        }
        true
    }

    /// True when both sets have the same members.
    pub fn same_members(&self, other: &ConnSet) -> (r: bool)
        ensures
            r == (self@ == other@),
    {
        let a = self.is_subset_of(other);
        let b = other.is_subset_of(self);
        if a && b {
            assert(self@ =~= other@);
        }
        a && b
    }

    /// Removes `k`; true when it was a member.
    pub fn remove(&mut self, k: &u64) -> (r: bool)
        ensures
            final(self)@ == old(self)@.remove(*k),
            r == old(self)@.contains(*k),
    {
        let r = self.table.remove(k);
        proof {
            assert(self@ =~= old(self)@.remove(*k));
        }
        r.is_some()
    }
}

/// A set of texts, in insertion order.
#[derive(Debug, Clone)]
pub struct TextSet {
    table: TextTable<()>,
}

impl View for TextSet {
    type V = Set<Seq<char>>;

    closed spec fn view(&self) -> Set<Seq<char>> {
        self.table@.dom()
    }
}

impl TextSet {
    /// An empty set.
    pub fn new() -> (s: Self)
        ensures
            s@ == Set::<Seq<char>>::empty(),
    {
        TextSet { table: TextTable::new() }
    }

    /// True when `k` is a member.
    pub fn contains(&self, k: &str) -> (r: bool)
        ensures
            r == self@.contains(k@),
    {
        self.table.contains_key(k)
    }

    /// Adds `k`; true when it was not a member before.
    pub fn insert(&mut self, k: String) -> (r: bool)
        ensures
            final(self)@ == old(self)@.insert(k@),
            r == !old(self)@.contains(k@),
    {
        let present = self.table.contains_key(k.as_str());
        let ghost kv = k@;
        self.table.insert(k, ());
        proof {
            assert(self@ =~= old(self)@.insert(kv));
        }
        !present
    }

    /// Removes `k`; true when it was a member.
    pub fn remove(&mut self, k: &str) -> (r: bool)
        ensures
            final(self)@ == old(self)@.remove(k@),
            r == old(self)@.contains(k@),
    {
        let r = self.table.remove(k);
        proof {
            assert(self@ =~= old(self)@.remove(k@));
        }
        r.is_some()
    }
}

} // verus!
