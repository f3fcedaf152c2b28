//! A table of entries keyed by name, in registration order, where a name
//! registered again replaces the earlier entry.
use vstd::prelude::*;

verus! {

pub struct Table<V> {
    entries: Vec<(String, V)>,
}

impl<V> Table<V> {
    /// The names of a sequence of entries.
    closed spec fn keys_of(e: Seq<(String, V)>) -> Seq<Seq<char>> {
        e.map_values(|x: (String, V)| x.0@)
    }

    /// The entry of each name of a sequence of entries.
    closed spec fn map_of(e: Seq<(String, V)>) -> Map<Seq<char>, V> {
        Map::new(
            |k: Seq<char>| Self::keys_of(e).contains(k),
            |k: Seq<char>| e[Self::keys_of(e).index_of(k)].1,
        )
    }

    /// The names, in registration order.
    pub closed spec fn keys(&self) -> Seq<Seq<char>> {
        Self::keys_of(self.entries@)
    }

    /// The entry of each name.
    pub closed spec fn map(&self) -> Map<Seq<char>, V> {
        Self::map_of(self.entries@)
    }

    /// No name occurs twice.
    pub closed spec fn wf(&self) -> bool {
        self.keys().no_duplicates()
    }

    #[verifier::type_invariant]
    spec fn inv(&self) -> bool {
        self.wf()
    }

    proof fn lemma_index_of(e: Seq<(String, V)>, i: int)
        requires
            Self::keys_of(e).no_duplicates(),
            0 <= i < e.len(),
        ensures
            Self::keys_of(e).contains(e[i].0@),
            Self::keys_of(e).index_of(e[i].0@) == i,
            Self::map_of(e).contains_key(e[i].0@),
            Self::map_of(e)[e[i].0@] == e[i].1,
    {
        let k = e[i].0@;
        assert(Self::keys_of(e)[i] == k);
        let j = Self::keys_of(e).index_of(k);
        assert(Self::keys_of(e)[j] == k);
    }

    proof fn lemma_index(&self, i: int)
        requires
            self.wf(),
            0 <= i < self.entries@.len(),
        ensures
            self.keys().contains(self.entries@[i].0@),
            self.keys().index_of(self.entries@[i].0@) == i,
            self.map().contains_key(self.entries@[i].0@),
            self.map()[self.entries@[i].0@] == self.entries@[i].1,
    {
        Self::lemma_index_of(self.entries@, i);
    }

    /// A name leads to an entry exactly when it is registered.
    pub proof fn lemma_registered(&self)
        ensures
            forall|k: Seq<char>| #[trigger] self.map().contains_key(k) <==> self.keys().contains(k),
    {
    }

    pub fn new() -> (r: Table<V>)
        ensures
            r.map() == Map::<Seq<char>, V>::empty(),
            r.keys() == Seq::<Seq<char>>::empty(),
    {
        let r = Table { entries: Vec::new() };
        assert(r.keys() =~= Seq::<Seq<char>>::empty());
        assert(r.map() =~= Map::<Seq<char>, V>::empty());
        r
    }

    pub fn len(&self) -> (r: usize)
        ensures
            r == self.keys().len(),
    {
        self.entries.len()
    }

    /// Position of `key` among the names, if registered.
    fn position(&self, key: &String) -> (r: Option<usize>)
        ensures
            r is None <==> !self.keys().contains(key@),
            r matches Some(i) ==> i < self.keys().len() && self.keys()[i as int] == key@
                && self.keys().index_of(key@) == i,
    {
        proof {
            use_type_invariant(self);
        }
        let mut i: usize = 0;
        while i < self.entries.len()
            invariant
                self.wf(),
                i <= self.entries@.len(),
                forall|j: int| 0 <= j < i ==> self.keys()[j] != key@,
            decreases self.entries@.len() - i,
        {
            if self.entries[i].0.eq(key) {
                proof {
                    self.lemma_index(i as int);
                }
                return Some(i);
            }
            i = i + 1;
        }
        None
    }

    /// The name at position `i`.
    pub fn key_at(&self, i: usize) -> (r: &String)
        requires
            i < self.keys().len(),
        ensures
            r@ == self.keys()[i as int],
    {
        &self.entries[i].0
    }

    /// The entry registered under `key`.
    pub fn get(&self, key: &String) -> (r: Option<&V>)
        ensures
            r is Some <==> self.map().contains_key(key@),
            r matches Some(v) ==> *v == self.map()[key@],
    {
        proof {
            use_type_invariant(self);
        }
        match self.position(key) {
            Some(i) => {
                proof {
                    self.lemma_index(i as int);
                }
                Some(&self.entries[i].1)
            },
            None => None,
        }
    }

    /// Registers `value` under `key`, replacing an earlier entry of that name
    /// in its place; a new name goes last.
    pub fn insert(&mut self, key: String, value: V)
        ensures
            final(self).map() == old(self).map().insert(key@, value),
            old(self).keys().contains(key@) ==> final(self).keys() == old(self).keys(),
            !old(self).keys().contains(key@) ==> final(self).keys() == old(self).keys().push(key@),
    {
        proof {
            use_type_invariant(&*self);
        }
        let ghost k = key@;
        let ghost e0 = self.entries@;
        let pos = self.position(&key);
        let mut entries: Vec<(String, V)> = Vec::new();
        std::mem::swap(&mut entries, &mut self.entries);
        assert(entries@ == e0);
        match pos {
            Some(i) => {
                entries.set(i, (key, value));
                let ghost e1 = entries@;
                assert(Self::keys_of(e1) =~= Self::keys_of(e0));
                assert(Self::map_of(e1) =~= Self::map_of(e0).insert(k, value)) by {
                    assert forall|q: Seq<char>| #[trigger] Self::map_of(e1).contains_key(q) implies
                        Self::map_of(e1)[q] == Self::map_of(e0).insert(k, value)[q] by {
                        let j = Self::keys_of(e1).index_of(q);
                        Self::lemma_index_of(e1, j);
                        if q != k {
                            Self::lemma_index_of(e0, j);
                        }
                    }
                }
            },
            None => {
                entries.push((key, value));
                let ghost e1 = entries@;
                assert(Self::keys_of(e1) =~= Self::keys_of(e0).push(k));
                assert(Self::keys_of(e1).no_duplicates()) by {
                    assert forall|a: int, b: int|
                        0 <= a < Self::keys_of(e1).len() && 0 <= b < Self::keys_of(e1).len() && a
                            != b implies Self::keys_of(e1)[a] != Self::keys_of(e1)[b] by {
                        if a < Self::keys_of(e0).len() && b < Self::keys_of(e0).len() {
                        } else if a == Self::keys_of(e0).len() {
                            assert(Self::keys_of(e0)[b] == Self::keys_of(e1)[b]);
                        } else {
                            assert(Self::keys_of(e0)[a] == Self::keys_of(e1)[a]);
                        }
                    }
                }
                assert(Self::map_of(e1) =~= Self::map_of(e0).insert(k, value)) by {
                    assert forall|q: Seq<char>|
                        #[trigger] Self::map_of(e1).contains_key(q) <==> Self::map_of(e0).insert(
                            k,
                            value,
                        ).contains_key(q) by {
                        if Self::keys_of(e0).contains(q) {
                            let j = Self::keys_of(e0).index_of(q);
                            assert(Self::keys_of(e1)[j] == q);
                        }
                        if q == k {
                            assert(Self::keys_of(e1)[Self::keys_of(e0).len() as int] == q);
                        }
                        if Self::keys_of(e1).contains(q) && q != k {
                            let j = Self::keys_of(e1).index_of(q);
                            assert(Self::keys_of(e0)[j] == q);
                        }
                    }
                    assert forall|q: Seq<char>| #[trigger] Self::map_of(e1).contains_key(q) implies
                        Self::map_of(e1)[q] == Self::map_of(e0).insert(k, value)[q] by {
                        let j = Self::keys_of(e1).index_of(q);
                        Self::lemma_index_of(e1, j);
                        if q != k {
                            assert(j < e0.len());
                            Self::lemma_index_of(e0, j);
                        }
                    }
                }
            },
        }
        self.entries = entries;
    }
}

} // verus!
