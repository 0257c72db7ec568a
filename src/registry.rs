//! A registry of handles keyed by identifier, kept in insertion order, with
//! at most one entry per key.
use vstd::prelude::*;

verus! {

/// No key occurs twice.
pub open spec fn keys_unique<H>(s: Seq<(u128, H)>) -> bool {
    forall|i: int, j: int| 0 <= i < j < s.len() ==> s[i].0 != s[j].0
}

/// The map from key to handle that a sequence of entries denotes.
pub open spec fn map_of<H>(s: Seq<(u128, H)>) -> Map<u128, H>
    decreases s.len(),
{
    if s.len() == 0 {
        Map::empty()
    } else {
        map_of(s.drop_last()).insert(s.last().0, s.last().1)
    }
}

proof fn lemma_map_of_dom<H>(s: Seq<(u128, H)>)
    ensures
        forall|k: u128|
            map_of(s).contains_key(k) <==> exists|i: int| 0 <= i < s.len() && s[i].0 == k,
    decreases s.len(),
{
    if s.len() > 0 {
        let t = s.drop_last();
        lemma_map_of_dom(t);
        assert forall|k: u128|
            map_of(s).contains_key(k) <==> exists|i: int| 0 <= i < s.len() && s[i].0 == k by {
            if map_of(t).contains_key(k) {
                let i = choose|i: int| 0 <= i < t.len() && t[i].0 == k;
                assert(s[i].0 == k);
            }
            if exists|i: int| 0 <= i < s.len() && s[i].0 == k {
                let i = choose|i: int| 0 <= i < s.len() && s[i].0 == k;
                if i < s.len() - 1 {
                    assert(t[i].0 == k);
                }
            }
        }
    }
}

proof fn lemma_map_of_value<H>(s: Seq<(u128, H)>, i: int)
    requires
        keys_unique(s),
        0 <= i < s.len(),
    ensures
        map_of(s).contains_key(s[i].0),
        map_of(s)[s[i].0] == s[i].1,
    decreases s.len(),
{
    if i < s.len() - 1 {
        let t = s.drop_last();
        assert(t[i] == s[i]);
        lemma_map_of_value(t, i);
    }
}

proof fn lemma_map_of_len<H>(s: Seq<(u128, H)>)
    requires
        keys_unique(s),
    ensures
        map_of(s).dom().finite(),
        map_of(s).dom().len() == s.len(),
    decreases s.len(),
{
    if s.len() > 0 {
        let t = s.drop_last();
        lemma_map_of_len(t);
        lemma_map_of_dom(t);
        if map_of(t).contains_key(s.last().0) {
            let i = choose|i: int| 0 <= i < t.len() && t[i].0 == s.last().0;
            assert(s[i].0 == s[s.len() - 1].0);
        }
    }
}

/// A sequence of entries with unique keys that holds exactly the pairs of `m`
/// denotes `m`.
proof fn lemma_map_of_is<H>(s: Seq<(u128, H)>, m: Map<u128, H>)
    requires
        keys_unique(s),
        forall|i: int| 0 <= i < s.len() ==> m.contains_key(#[trigger] s[i].0) && m[s[i].0] == s[i].1,
        forall|k: u128| m.contains_key(k) ==> exists|i: int| 0 <= i < s.len() && s[i].0 == k,
    ensures
        map_of(s) == m,
{
    lemma_map_of_dom(s);
    assert forall|k: u128| map_of(s).contains_key(k) implies m.contains_key(k) && map_of(s)[k]
        == m[k] by {
        let i = choose|i: int| 0 <= i < s.len() && s[i].0 == k;
        lemma_map_of_value(s, i);
    }
    assert(map_of(s) =~= m);
}

/// Handles keyed by identifier.
pub struct Registry<H> {
    entries: Vec<(u128, H)>,
}

impl<H> View for Registry<H> {
    type V = Map<u128, H>;

    closed spec fn view(&self) -> Map<u128, H> {
        map_of(self.entries@)
    }
}

impl<H> Registry<H> {
    /// The registry's entries, in insertion order.
    pub closed spec fn entries(&self) -> Seq<(u128, H)> {
        self.entries@
    }

    /// Well-formedness: no key has two entries.
    pub closed spec fn wf(&self) -> bool {
        keys_unique(self.entries@)
    }

    /// An empty registry.
    pub fn new() -> (r: Self)
        ensures
            r.wf(),
            r@ == Map::<u128, H>::empty(),
    {
        Registry { entries: Vec::new() }
    }

    fn find(&self, key: u128) -> (r: Option<usize>)
        requires
            self.wf(),
        ensures
            match r {
                Some(i) => i < self.entries@.len() && self.entries@[i as int].0 == key,
                None => forall|i: int| 0 <= i < self.entries@.len() ==> self.entries@[i].0 != key,
            },
    {
        let mut i: usize = 0;
        while i < self.entries.len()
            invariant
                i <= self.entries@.len(),
                forall|j: int| 0 <= j < i ==> self.entries@[j].0 != key,
            decreases self.entries@.len() - i,
        {
            if self.entries[i].0 == key {
                return Some(i);
            }
            i = i + 1;
        }
        None
    }

    /// Number of entries.
    pub fn len(&self) -> (r: usize)
        requires
            self.wf(),
        ensures
            r == self@.len(),
    {
        proof {
            lemma_map_of_len(self.entries@);
        }
        self.entries.len()
    }

    /// Whether `key` has an entry.
    pub fn contains(&self, key: u128) -> (r: bool)
        requires
            self.wf(),
        ensures
            r == self@.contains_key(key),
    {
        proof {
            lemma_map_of_dom(self.entries@);
        }
        self.find(key).is_some()
    }

    /// The handle under `key`, if any.
    pub fn get(&self, key: u128) -> (r: Option<&H>)
        requires
            self.wf(),
        ensures
            r.is_some() == self@.contains_key(key),
            r matches Some(h) ==> *h == self@[key],
    {
        proof {
            lemma_map_of_dom(self.entries@);
        }
        match self.find(key) {
            Some(i) => {
                proof {
                    lemma_map_of_value(self.entries@, i as int);
                }
                Some(&self.entries[i].1)
            },
            None => None,
        }
    }

    /// Puts `handle` under `key`, replacing the handle that was there.
    pub fn insert(&mut self, key: u128, handle: H)
        requires
            old(self).wf(),
        ensures
            final(self).wf(),
            final(self)@ == old(self)@.insert(key, handle),
    {
        let ghost s = self.entries@;
        let ghost m = map_of(s).insert(key, handle);
        proof {
            lemma_map_of_dom(s);
        }
        match self.find(key) {
            Some(i) => {
                self.entries.set(i, (key, handle));
                proof {
                    let t = self.entries@;
                    assert(t == s.update(i as int, (key, handle)));
                    assert forall|j: int| 0 <= j < t.len() implies m.contains_key(#[trigger] t[j].0)
                        && m[t[j].0] == t[j].1 by {
                        if j != i {
                            lemma_map_of_value(s, j);
                        }
                    }
                    assert forall|k: u128| m.contains_key(k) implies exists|j: int|
                        0 <= j < t.len() && t[j].0 == k by {
                        if k != key {
                            let j = choose|j: int| 0 <= j < s.len() && s[j].0 == k;
                            assert(t[j].0 == k);
                        } else {
                            assert(t[i as int].0 == k);
                        }
                    }
                    lemma_map_of_is(t, m);
                }
            },
            None => {
                self.entries.push((key, handle));
                proof {
                    assert(self.entries@.drop_last() =~= s);
                }
            },
        }
    }

    /// Removes the entry under `key`; tells whether there was one.
    pub fn remove(&mut self, key: u128) -> (r: bool)
        requires
            old(self).wf(),
        ensures
            final(self).wf(),
            final(self)@ == old(self)@.remove(key),
            r == old(self)@.contains_key(key),
    {
        let ghost s = self.entries@;
        let ghost m = map_of(s).remove(key);
        proof {
            lemma_map_of_dom(s);
        }
        match self.find(key) {
            Some(i) => {
                self.entries.remove(i);
                proof {
                    let t = self.entries@;
                    assert(t == s.remove(i as int));
                    assert forall|j: int| 0 <= j < t.len() implies m.contains_key(#[trigger] t[j].0)
                        && m[t[j].0] == t[j].1 by {
                        if j < i {
                            lemma_map_of_value(s, j);
                        } else {
                            lemma_map_of_value(s, j + 1);
                        }
                    }
                    assert forall|k: u128| m.contains_key(k) implies exists|j: int|
                        0 <= j < t.len() && t[j].0 == k by {
                        let j = choose|j: int| 0 <= j < s.len() && s[j].0 == k;
                        if j < i {
                            assert(t[j].0 == k);
                        } else {
                            assert(t[j - 1].0 == k);
                        }
                    }
                    lemma_map_of_is(t, m);
                }
                true
            },
            None => {
                proof {
                    assert(m =~= map_of(s));
                }
                false
            },
        }
    }

    /// The keys, in insertion order, each once.
    pub fn keys(&self) -> (r: Vec<u128>)
        requires
            self.wf(),
        ensures
            r@.no_duplicates(),
            forall|k: u128| r@.contains(k) <==> self@.contains_key(k),
    {
        proof {
            lemma_map_of_dom(self.entries@);
        }
        let mut r: Vec<u128> = Vec::new();
        let mut i: usize = 0;
        while i < self.entries.len()
            invariant
                self.wf(),
                i <= self.entries@.len(),
                r@.len() == i,
                forall|j: int| 0 <= j < i ==> r@[j] == self.entries@[j].0,
            decreases self.entries@.len() - i,
        {
            r.push(self.entries[i].0);
            i = i + 1;
        }
        proof {
            assert forall|k: u128| r@.contains(k) <==> self@.contains_key(k) by {
                if self@.contains_key(k) {
                    let j = choose|j: int| 0 <= j < self.entries@.len() && self.entries@[j].0 == k;
                    assert(r@[j] == k);
                }
            }
        }
        r
    }
}

impl<H> Registry<H> {
    /// Each entry is what the map holds under its key, and each key of the
    /// map has an entry.
    pub proof fn lemma_entries(&self)
        requires
            self.wf(),
        ensures
            forall|i: int|
                0 <= i < self.entries().len() ==> self@.contains_key(#[trigger] self.entries()[i].0)
                    && self@[self.entries()[i].0] == self.entries()[i].1,
            forall|k: u128|
                self@.contains_key(k) ==> exists|i: int|
                    0 <= i < self.entries().len() && self.entries()[i].0 == k,
            keys_unique(self.entries()),
            self@.dom().finite(),
            self@.len() == self.entries().len(),
    {
        lemma_map_of_dom(self.entries@);
        lemma_map_of_len(self.entries@);
        assert(self.entries() == self.entries@);
        assert(self@ == map_of(self.entries@));
        assert forall|i: int| 0 <= i < self.entries().len() implies self@.contains_key(
            #[trigger] self.entries()[i].0,
        ) && self@[self.entries()[i].0] == self.entries()[i].1 by {
            lemma_map_of_value(self.entries@, i);
        }
    }
}

impl<H: Copy> Registry<H> {
    /// The handles, in insertion order.
    pub fn values(&self) -> (r: Vec<H>)
        ensures
            r@ == self.entries().map_values(|e: (u128, H)| e.1),
    {
        let mut r: Vec<H> = Vec::new();
        let mut i: usize = 0;
        while i < self.entries.len()
            invariant
                i <= self.entries@.len(),
                r@ == self.entries@.take(i as int).map_values(|e: (u128, H)| e.1),
            decreases self.entries@.len() - i,
        {
            let h: H = self.entries[i].1;
            r.push(h);
            i = i + 1;
            proof {
                assert(r@ =~= self.entries@.take(i as int).map_values(|e: (u128, H)| e.1));
            }
        }
        proof {
            assert(self.entries@.take(i as int) =~= self.entries@);
        }
        r
    }
}

} // verus!
