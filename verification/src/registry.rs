//! A small map from names to values, kept as a list without repeated names.

use crate::text::{chars_of, matches_whole};
use vstd::prelude::*;

verus! {

/// Values by name. No name occurs twice.
pub struct Registry<V> {
    keys: Vec<String>,
    values: Vec<V>,
}

impl<V> Registry<V> {
    /// The lists are of one length, and no two names are the same text.
    pub closed spec fn wf(&self) -> bool {
        &&& self.keys.len() == self.values.len()
        &&& forall|i: int, j: int|
            0 <= i < j < self.keys.len() ==> self.keys[i]@ != self.keys[j]@
    }

    spec fn holds_at(&self, key: Seq<char>, i: int) -> bool {
        0 <= i < self.keys.len() && self.keys[i]@ == key
    }

    spec fn index_of(&self, key: Seq<char>) -> int {
        choose|i: int| self.holds_at(key, i)
    }

    /// The registry as a map from the text of each name to its value.
    pub closed spec fn map(&self) -> Map<Seq<char>, V> {
        Map::new(
            |k: Seq<char>| exists|i: int| self.holds_at(k, i),
            |k: Seq<char>| self.values[self.index_of(k)],
        )
    }

    proof fn lemma_entry(&self, i: int)
        requires
            self.wf(),
            0 <= i < self.keys.len(),
        ensures
            self.map().dom().contains(self.keys[i]@),
            self.map()[self.keys[i]@] == self.values[i],
            self.index_of(self.keys[i]@) == i,
    {
        let k = self.keys[i]@;
        assert(self.holds_at(k, i));
        let j = self.index_of(k);
        assert(self.holds_at(k, j));
        if j != i {
            if j < i {
                assert(self.keys[j]@ != self.keys[i]@);
            } else {
                assert(self.keys[i]@ != self.keys[j]@);
            }
        }
    }

    /// The values, in the order in which they are kept.
    pub closed spec fn entries(&self) -> Seq<V> {
        self.values@
    }

    /// Whether some name has the value `v`.
    pub open spec fn files(&self, v: V) -> bool {
        exists|k: Seq<char>| #[trigger] self.map().dom().contains(k) && self.map()[k] == v
    }

    /// The values of the map are the entries, and the other way round.
    pub proof fn lemma_entries(&self)
        requires
            self.wf(),
        ensures
            forall|k: Seq<char>| #[trigger]
                self.map().dom().contains(k) ==> self.entries().contains(self.map()[k]),
            forall|i: int|
                0 <= i < self.entries().len() ==> self.files(#[trigger] self.entries()[i]),
    {
        assert forall|k: Seq<char>| #[trigger]
            self.map().dom().contains(k) implies self.entries().contains(self.map()[k]) by {
            let i = self.index_of(k);
            assert(self.holds_at(k, i));
            assert(self.entries()[i] == self.map()[k]);
        }
        assert forall|i: int| 0 <= i < self.entries().len() implies self.files(
            #[trigger] self.entries()[i],
        ) by {
            self.lemma_entry(i);
            let k = self.keys[i]@;
            assert(self.map().dom().contains(k) && self.map()[k] == self.entries()[i]);
        }
    }

    /// The values, in the order in which they are kept.
    pub fn values(&self) -> (v: &Vec<V>)
        ensures
            v@ == self.entries(),
    {
        &self.values
    }

    /// A registry without entries.
    pub fn new() -> (r: Registry<V>)
        ensures
            r.wf(),
            r.map() == Map::<Seq<char>, V>::empty(),
    {
        let r = Registry { keys: Vec::new(), values: Vec::new() };
        assert(r.map() =~= Map::<Seq<char>, V>::empty());
        r
    }

    fn find(&self, key: &str) -> (r: Option<usize>)
        requires
            self.wf(),
        ensures
            match r {
                Some(i) => self.holds_at(key@, i as int),
                None => forall|i: int| !self.holds_at(key@, i),
            },
    {
        let wanted = chars_of(key);
        let mut i: usize = 0;
        while i < self.keys.len()
            invariant
                i <= self.keys.len(),
                wanted@ == key@,
                forall|j: int| 0 <= j < i ==> self.keys[j]@ != key@,
            decreases self.keys.len() - i,
        {
            let name = chars_of(self.keys[i].as_str());
            if matches_whole(name.as_slice(), wanted.as_slice()) {
                return Some(i);
            }
            i += 1;
        }
        None
    }

    /// Whether `key` has a value.
    pub fn contains_key(&self, key: &str) -> (r: bool)
        requires
            self.wf(),
        ensures
            r == self.map().dom().contains(key@),
    {
        self.find(key).is_some()
    }

    /// The value of `key`, if it has one.
    pub fn get(&self, key: &str) -> (r: Option<&V>)
        requires
            self.wf(),
        ensures
            match r {
                Some(v) => self.map().dom().contains(key@) && self.map()[key@] == *v,
                None => !self.map().dom().contains(key@),
            },
    {
        match self.find(key) {
            Some(i) => {
                proof {
                    self.lemma_entry(i as int);
                }
                Some(&self.values[i])
            },
            None => None,
        }
    }

    /// Takes the value of `key` out, if it has one.
    pub fn remove(&mut self, key: &str) -> (r: Option<V>)
        requires
            old(self).wf(),
        ensures
            final(self).wf(),
            final(self).map() == old(self).map().remove(key@),
            match r {
                Some(v) => old(self).map().dom().contains(key@) && old(self).map()[key@] == v,
                None => !old(self).map().dom().contains(key@),
            },
    {
        match self.find(key) {
            Some(i) => {
                proof {
                    self.lemma_entry(i as int);
                }
                let ghost before = *self;
                self.keys.remove(i);
                let v = self.values.remove(i);
                proof {
                    assert(self.wf()) by {
                        assert forall|a: int, b: int|
                            0 <= a < b < self.keys.len() implies self.keys[a]@
                            != self.keys[b]@ by {
                            let a0 = if a < i { a } else { a + 1 };
                            let b0 = if b < i { b } else { b + 1 };
                            assert(before.keys[a0]@ != before.keys[b0]@);
                        }
                    }
                    assert forall|k: Seq<char>| #![auto] self.map().dom().contains(k) <==> (
                    before.map().dom().contains(k) && k != key@) by {
                        if self.map().dom().contains(k) {
                            let a = choose|a: int| self.holds_at(k, a);
                            let a0 = if a < i { a } else { a + 1 };
                            assert(before.holds_at(k, a0));
                            if k == key@ {
                                assert(before.keys[a0]@ == before.keys[i as int]@);
                                if a0 < i {
                                    assert(before.keys[a0]@ != before.keys[i as int]@);
                                } else {
                                    assert(before.keys[i as int]@ != before.keys[a0]@);
                                }
                            }
                        }
                        if before.map().dom().contains(k) && k != key@ {
                            let a0 = choose|a: int| before.holds_at(k, a);
                            let a = if a0 < i { a0 } else { a0 - 1 };
                            assert(self.holds_at(k, a));
                        }
                    }
                    assert forall|k: Seq<char>| self.map().dom().contains(k) implies self.map()[k]
                        == before.map()[k] by {
                        let a = choose|a: int| self.holds_at(k, a);
                        let a0 = if a < i { a } else { a + 1 };
                        assert(before.holds_at(k, a0));
                        self.lemma_entry(a);
                        before.lemma_entry(a0);
                    }
                    assert(self.map() =~= before.map().remove(key@));
                }
                Some(v)
            },
            None => {
                assert(self.map() =~= self.map().remove(key@));
                None
            },
        }
    }

    /// Gives `key` the value `value`, in place of any value it had.
    pub fn insert(&mut self, key: String, value: V)
        requires
            old(self).wf(),
        ensures
            final(self).wf(),
            final(self).map() == old(self).map().insert(key@, value),
    {
        let _ = self.remove(key.as_str());
        let ghost before = *self;
        assert(!before.map().dom().contains(key@));
        assert(forall|i: int| !before.holds_at(key@, i));
        self.keys.push(key);
        self.values.push(value);
        proof {
            let n = before.keys.len() as int;
            assert(self.wf()) by {
                assert forall|a: int, b: int| 0 <= a < b < self.keys.len() implies self.keys[a]@
                    != self.keys[b]@ by {
                    if b == n {
                        assert(!before.holds_at(key@, a));
                    } else {
                        assert(before.keys[a]@ != before.keys[b]@);
                    }
                }
            }
            assert forall|k: Seq<char>| #![auto] self.map().dom().contains(k) <==> (
            before.map().dom().contains(k) || k == key@) by {
                if self.map().dom().contains(k) {
                    let a = choose|a: int| self.holds_at(k, a);
                    if a < n {
                        assert(before.holds_at(k, a));
                    }
                }
                if before.map().dom().contains(k) {
                    let a = choose|a: int| before.holds_at(k, a);
                    assert(self.holds_at(k, a));
                }
                if k == key@ {
                    assert(self.holds_at(k, n));
                }
            }
            assert forall|k: Seq<char>| self.map().dom().contains(k) implies self.map()[k] == (
            if k == key@ {
                value
            } else {
                before.map()[k]
            }) by {
                let a = choose|a: int| self.holds_at(k, a);
                self.lemma_entry(a);
                if a < n {
                    assert(before.holds_at(k, a));
                    before.lemma_entry(a);
                }
            }
            assert(self.map() =~= before.map().insert(key@, value));
            assert(before.map() =~= old(self).map().remove(key@));
            assert(before.map().insert(key@, value) =~= old(self).map().insert(key@, value));
        }
    }
}

} // verus!
