use vstd::prelude::*;

verus! {

/// A value that carries its own 128-bit identifier.
pub trait Keyed {
    spec fn spec_key(&self) -> u128;

    fn key(&self) -> (r: u128)
        ensures
            r == self.spec_key(),
    ;
}

/// Values stored by their identifiers, at most one per identifier, in the order in which
/// identifiers were first inserted.
#[derive(Clone, Debug, PartialEq)]
pub struct IdMap<V> {
    entries: Vec<V>,
}

/// No two values of `s` share an identifier.
pub open spec fn keys_unique<V: Keyed>(s: Seq<V>) -> bool {
    forall|i: int, j: int|
        0 <= i < s.len() && 0 <= j < s.len() && i != j ==> #[trigger] s[i].spec_key() != #[trigger] s[j].spec_key()
}

/// Whether some value of `s` has identifier `key`.
pub open spec fn has_key<V: Keyed>(s: Seq<V>, key: u128) -> bool {
    exists|i: int| 0 <= i < s.len() && #[trigger] s[i].spec_key() == key
}

/// The values of `s` by identifier.
pub open spec fn seq_to_map<V: Keyed>(s: Seq<V>) -> Map<u128, V> {
    Map::new(
        |key: u128| has_key(s, key),
        |key: u128| s[choose|i: int| 0 <= i < s.len() && #[trigger] s[i].spec_key() == key],
    )
}

/// `s` with `v` stored under its identifier: in place of the value with that identifier,
/// or appended when there is none.
pub open spec fn keyed_insert<V: Keyed>(s: Seq<V>, v: V) -> Seq<V> {
    if has_key(s, v.spec_key()) {
        s.update(choose|i: int| 0 <= i < s.len() && #[trigger] s[i].spec_key() == v.spec_key(), v)
    } else {
        s.push(v)
    }
}

/// After a keyed insertion every position holds the inserted value or what it held before.
pub proof fn lemma_keyed_insert_elements<V: Keyed>(s: Seq<V>, v: V)
    ensures
        keyed_insert(s, v).len() >= s.len(),
        forall|i: int|
            0 <= i < keyed_insert(s, v).len() ==> #[trigger] keyed_insert(s, v)[i] == v || (i < s.len()
                && keyed_insert(s, v)[i] == s[i]),
        keyed_insert(s, v).contains(v),
{
    let r = keyed_insert(s, v);
    if has_key(s, v.spec_key()) {
        let k = choose|i: int| 0 <= i < s.len() && #[trigger] s[i].spec_key() == v.spec_key();
        assert(r[k] == v);
    } else {
        assert(r[s.len() as int] == v);
    }
}

/// Every value in the map of a sequence carries the identifier it is stored under.
pub proof fn lemma_seq_to_map_keys<V: Keyed>(s: Seq<V>)
    ensures
        forall|key: u128| #[trigger] seq_to_map(s).dom().contains(key) ==> seq_to_map(s)[key].spec_key() == key,
{
    assert forall|key: u128| #[trigger] seq_to_map(s).dom().contains(key) implies seq_to_map(s)[key].spec_key()
        == key by {
        let j = choose|i: int| 0 <= i < s.len() && #[trigger] s[i].spec_key() == key;
        assert(seq_to_map(s)[key] == s[j]);
    }
}

/// In a sequence with unique identifiers, the map holds each value under its identifier.
pub proof fn lemma_seq_to_map_at<V: Keyed>(s: Seq<V>, i: int)
    requires
        keys_unique(s),
        0 <= i < s.len(),
    ensures
        seq_to_map(s).dom().contains(s[i].spec_key()),
        seq_to_map(s)[s[i].spec_key()] == s[i],
{
    let key = s[i].spec_key();
    assert(has_key(s, key));
    let j = choose|j: int| 0 <= j < s.len() && #[trigger] s[j].spec_key() == key;
    assert(s[j].spec_key() == s[i].spec_key());
}

/// A sequence with unique identifiers holds exactly the entries of its map.
pub proof fn lemma_seq_to_map_contains<V: Keyed>(s: Seq<V>)
    requires
        keys_unique(s),
    ensures
        forall|v: V| #[trigger]
            s.contains(v) <==> (seq_to_map(s).dom().contains(v.spec_key()) && seq_to_map(s)[v.spec_key()] == v),
{
    assert forall|v: V| #[trigger]
        s.contains(v) <==> (seq_to_map(s).dom().contains(v.spec_key()) && seq_to_map(s)[v.spec_key()] == v) by {
        if s.contains(v) {
            let i = choose|i: int| 0 <= i < s.len() && s[i] == v;
            lemma_seq_to_map_at(s, i);
        }
        if seq_to_map(s).dom().contains(v.spec_key()) && seq_to_map(s)[v.spec_key()] == v {
            let j = choose|j: int| 0 <= j < s.len() && #[trigger] s[j].spec_key() == v.spec_key();
            assert(s[j] == v);
        }
    }
}

/// Storing `v` under its identifier keeps identifiers unique and stores `v` under that
/// identifier in the map view, leaving the other identifiers as they were.
pub proof fn lemma_keyed_insert_map<V: Keyed>(s: Seq<V>, v: V)
    requires
        keys_unique(s),
    ensures
        keys_unique(keyed_insert(s, v)),
        seq_to_map(keyed_insert(s, v)) == seq_to_map(s).insert(v.spec_key(), v),
{
    let key = v.spec_key();
    let r = keyed_insert(s, v);
    if has_key(s, key) {
        let i = choose|k: int| 0 <= k < s.len() && #[trigger] s[k].spec_key() == key;
        assert(r == s.update(i, v));
        assert(keys_unique(r));
        assert forall|q: u128| #[trigger] has_key(r, q) == (has_key(s, q) || q == key) by {
            if has_key(s, q) {
                let j = choose|j: int| 0 <= j < s.len() && #[trigger] s[j].spec_key() == q;
                assert(r[j].spec_key() == q);
            }
            if has_key(r, q) {
                let j = choose|j: int| 0 <= j < r.len() && #[trigger] r[j].spec_key() == q;
                if j != i {
                    assert(s[j].spec_key() == q);
                }
            }
        }
        assert forall|q: u128| #[trigger] seq_to_map(r).dom().contains(q) implies seq_to_map(r)[q]
            == seq_to_map(s).insert(key, v)[q] by {
            let j = choose|j: int| 0 <= j < r.len() && #[trigger] r[j].spec_key() == q;
            lemma_seq_to_map_at(r, j);
            if j != i {
                assert(s[j] == r[j]);
                lemma_seq_to_map_at(s, j);
            }
        }
    } else {
        assert(r == s.push(v));
        assert(keys_unique(r)) by {
            assert forall|i: int, j: int|
                0 <= i < r.len() && 0 <= j < r.len() && i != j implies #[trigger] r[i].spec_key()
                != #[trigger] r[j].spec_key() by {
                if i == s.len() {
                    assert(r[j] == s[j]);
                } else if j == s.len() {
                    assert(r[i] == s[i]);
                }
            }
        }
        assert forall|q: u128| #[trigger] has_key(r, q) == (has_key(s, q) || q == key) by {
            if has_key(s, q) {
                let j = choose|j: int| 0 <= j < s.len() && #[trigger] s[j].spec_key() == q;
                assert(r[j].spec_key() == q);
            }
            if q == key {
                assert(r[s.len() as int].spec_key() == q);
            }
            if has_key(r, q) {
                let j = choose|j: int| 0 <= j < r.len() && #[trigger] r[j].spec_key() == q;
                if j < s.len() {
                    assert(s[j].spec_key() == q);
                }
            }
        }
        assert forall|q: u128| #[trigger] seq_to_map(r).dom().contains(q) implies seq_to_map(r)[q]
            == seq_to_map(s).insert(key, v)[q] by {
            let j = choose|j: int| 0 <= j < r.len() && #[trigger] r[j].spec_key() == q;
            lemma_seq_to_map_at(r, j);
            if j < s.len() {
                assert(s[j] == r[j]);
                lemma_seq_to_map_at(s, j);
            }
        }
    }
    assert(seq_to_map(r) =~= seq_to_map(s).insert(key, v));
}

/// Taking out the values with identifier `key` keeps identifiers unique and removes `key`
/// from the map view, leaving the other identifiers as they were.
pub proof fn lemma_keyed_remove_map<V: Keyed>(s: Seq<V>, key: u128)
    requires
        keys_unique(s),
    ensures
        keys_unique(s.filter(|v: V| v.spec_key() != key)),
        seq_to_map(s.filter(|v: V| v.spec_key() != key)) == seq_to_map(s).remove(key),
{
    let f = s.filter(|v: V| v.spec_key() != key);
    broadcast use vstd::seq_lib::group_filter_ensures;
    assert forall|a: int, b: int| 0 <= a < f.len() && 0 <= b < f.len() && a != b implies
        #[trigger] f[a].spec_key() != #[trigger] f[b].spec_key() by {
        crate::seq_util::lemma_filter_index_origin(s, |v: V| v.spec_key() != key, a, b);
    }
    assert forall|q: u128| #[trigger] has_key(f, q) == (has_key(s, q) && q != key) by {
        if has_key(f, q) {
            let j = choose|j: int| 0 <= j < f.len() && #[trigger] f[j].spec_key() == q;
            assert(f.contains(f[j]));
            s.lemma_filter_contains_rev(|v: V| v.spec_key() != key, f[j]);
            let k = choose|k: int| 0 <= k < s.len() && s[k] == f[j];
            assert(s[k].spec_key() == q);
        }
        if has_key(s, q) && q != key {
            let j = choose|j: int| 0 <= j < s.len() && #[trigger] s[j].spec_key() == q;
            assert(f.contains(s[j]));
            let k = choose|k: int| 0 <= k < f.len() && f[k] == s[j];
            assert(f[k].spec_key() == q);
        }
    }
    assert forall|q: u128| #[trigger] seq_to_map(f).dom().contains(q) implies seq_to_map(f)[q]
        == seq_to_map(s).remove(key)[q] by {
        let j = choose|j: int| 0 <= j < f.len() && #[trigger] f[j].spec_key() == q;
        lemma_seq_to_map_at(f, j);
        assert(f.contains(f[j]));
        s.lemma_filter_contains_rev(|v: V| v.spec_key() != key, f[j]);
        let k = choose|k: int| 0 <= k < s.len() && s[k] == f[j];
        lemma_seq_to_map_at(s, k);
    }
    assert(seq_to_map(f) =~= seq_to_map(s).remove(key));
}

impl<V: Keyed + Copy> View for IdMap<V> {
    type V = Map<u128, V>;

    closed spec fn view(&self) -> Map<u128, V> {
        seq_to_map(self.entries@)
    }
}

impl<V: Keyed + Copy> IdMap<V> {
    pub closed spec fn entries(&self) -> Seq<V> {
        self.entries@
    }

    pub closed spec fn wf(&self) -> bool {
        keys_unique(self.entries@)
    }

    /// The stored values in order agree with the map view.
    pub proof fn lemma_entries(&self)
        requires
            self.wf(),
        ensures
            keys_unique(self.entries()),
            self@ == seq_to_map(self.entries()),
            forall|v: V| #[trigger]
                self.entries().contains(v) <==> (self@.dom().contains(v.spec_key()) && self@[v.spec_key()] == v),
            forall|key: u128| #[trigger] self@.dom().contains(key) <==> has_key(self.entries(), key),
    {
        lemma_seq_to_map_contains(self.entries@);
    }

    pub fn new() -> (r: IdMap<V>)
        ensures
            r.wf(),
            r@ == Map::<u128, V>::empty(),
            r.entries() == Seq::<V>::empty(),
    {
        let r = IdMap { entries: Vec::new() };
        proof {
            assert(r@ =~= Map::<u128, V>::empty());
        }
        r
    }

    /// The position of the value with identifier `key`, if any.
    fn position(&self, key: u128) -> (r: Option<usize>)
        requires
            self.wf(),
        ensures
            match r {
                Some(i) => i < self.entries@.len() && self.entries@[i as int].spec_key() == key,
                None => !has_key(self.entries@, key),
            },
    {
        let mut i: usize = 0;
        while i < self.entries.len()
            invariant
                i <= self.entries.len(),
                forall|j: int| 0 <= j < i ==> #[trigger] self.entries@[j].spec_key() != key,
            decreases self.entries.len() - i,
        {
            if self.entries[i].key() == key {
                return Some(i);
            }
            i = i + 1;
        }
        None
    }

    /// The value with identifier `key`, if any.
    pub fn get(&self, key: u128) -> (r: Option<V>)
        requires
            self.wf(),
        ensures
            r == (if self@.dom().contains(key) {
                Some(self@[key])
            } else {
                None
            }),
    {
        match self.position(key) {
            Some(i) => {
                proof {
                    lemma_seq_to_map_at(self.entries@, i as int);
                }
                Some(self.entries[i])
            },
            None => None,
        }
    }

    /// Whether a value with identifier `key` is stored.
    pub fn contains_key(&self, key: u128) -> (r: bool)
        requires
            self.wf(),
        ensures
            r == self@.dom().contains(key),
    {
        self.position(key).is_some()
    }

    /// Stores `value` under its identifier, replacing any value stored there in place.
    pub fn insert(&mut self, value: V)
        requires
            old(self).wf(),
        ensures
            final(self).wf(),
            final(self)@ == old(self)@.insert(value.spec_key(), value),
            final(self).entries() == keyed_insert(old(self).entries(), value),
    {
        let key = value.key();
        let ghost old_entries = self.entries@;
        match self.position(key) {
            Some(i) => {
                self.entries.set(i, value);
                proof {
                    let k = choose|k: int|
                        0 <= k < old_entries.len() && #[trigger] old_entries[k].spec_key() == key;
                    assert(old_entries[k].spec_key() == old_entries[i as int].spec_key());
                }
            },
            None => {
                self.entries.push(value);
            },
        }
        proof {
            lemma_keyed_insert_map(old_entries, value);
        }
    }

    /// Takes out the value with identifier `key`, if any, keeping the others in order.
    pub fn remove(&mut self, key: u128) -> (r: Option<V>)
        requires
            old(self).wf(),
        ensures
            final(self).wf(),
            r == (if old(self)@.dom().contains(key) {
                Some(old(self)@[key])
            } else {
                None
            }),
            final(self)@ == old(self)@.remove(key),
            final(self).entries() == old(self).entries().filter(|v: V| v.spec_key() != key),
    {
        let ghost old_entries = self.entries@;
        let found = self.get(key);
        let mut kept: Vec<V> = Vec::new();
        let mut i: usize = 0;
        while i < self.entries.len()
            invariant
                i <= self.entries.len(),
                self.entries@ == old_entries,
                keys_unique(old_entries),
                kept@ == old_entries.take(i as int).filter(|v: V| v.spec_key() != key),
            decreases self.entries.len() - i,
        {
            proof {
                crate::seq_util::lemma_filter_take_step(old_entries, |v: V| v.spec_key() != key, i as int);
            }
            let v = self.entries[i];
            if v.key() != key {
                kept.push(v);
            }
            i = i + 1;
        }
        proof {
            crate::seq_util::lemma_take_full(old_entries);
            lemma_keyed_remove_map(old_entries, key);
        }
        self.entries = kept;
        found
    }

    /// The stored values, in order.
    pub fn values(&self) -> (r: &Vec<V>)
        ensures
            r@ == self.entries(),
    {
        &self.entries
    }
}

} // verus!
