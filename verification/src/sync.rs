//! The storage behind the keyed lock: a mapping from string keys to values
//! with insert/overwrite and remove-and-return operations. The surrounding
//! binary guards one instance of it with a single mutual-exclusion lock and
//! exposes the two operations asynchronously; the map itself owns nothing
//! beyond its entries.
use vstd::prelude::*;

verus! {

/// A keyed map used to serialize access to resources identified by a key,
/// such as one mirror directory per repository.
pub struct SharedMap<V> {
    entries: Vec<(String, V)>,
}

/// No key occurs twice.
pub open spec fn distinct_keys<V>(es: Seq<(String, V)>) -> bool {
    forall|i: int, j: int| 0 <= i < j < es.len() ==> (#[trigger] es[i]).0@ != (#[trigger] es[j]).0@
}

pub open spec fn has_key<V>(es: Seq<(String, V)>, k: Seq<char>) -> bool {
    exists|i: int| 0 <= i < es.len() && (#[trigger] es[i]).0@ == k
}

pub open spec fn key_index<V>(es: Seq<(String, V)>, k: Seq<char>) -> int {
    choose|i: int| 0 <= i < es.len() && (#[trigger] es[i]).0@ == k
}

/// The mapping an entry list denotes.
pub open spec fn map_of<V>(es: Seq<(String, V)>) -> Map<Seq<char>, V> {
    Map::new(|k: Seq<char>| has_key(es, k), |k: Seq<char>| es[key_index(es, k)].1)
}

proof fn lemma_key_index<V>(es: Seq<(String, V)>, k: Seq<char>, i: int)
    requires
        distinct_keys(es),
        0 <= i < es.len(),
        es[i].0@ == k,
    ensures
        has_key(es, k),
        key_index(es, k) == i,
{
    assert(has_key(es, k));
    let j = key_index(es, k);
    if i < j {
        assert(es[i].0@ != es[j].0@);
    } else if j < i {
        assert(es[j].0@ != es[i].0@);
    }
}

impl<V> SharedMap<V> {
    /// The mapping this map currently holds.
    pub closed spec fn view(&self) -> Map<Seq<char>, V> {
        map_of(self.entries@)
    }

    /// Internal well-formedness: one entry per key.
    pub closed spec fn wf(&self) -> bool {
        distinct_keys(self.entries@)
    }

    /// An empty map.
    pub fn new() -> (r: SharedMap<V>)
        ensures
            r.wf(),
            r@ == Map::<Seq<char>, V>::empty(),
    {
        let r = SharedMap { entries: Vec::new() };
        proof {
            assert(r@ =~= Map::<Seq<char>, V>::empty());
        }
        r
    }

    fn find(&self, key: &String) -> (r: Option<usize>)
        requires
            self.wf(),
        ensures
            match r {
                Some(i) => i < self.entries@.len() && self.entries@[i as int].0@ == key@,
                None => !has_key(self.entries@, key@),
            },
    {
        let mut i: usize = 0;
        while i < self.entries.len()
            invariant
                i <= self.entries@.len(),
                forall|j: int| 0 <= j < i ==> (#[trigger] self.entries@[j]).0@ != key@,
            decreases self.entries@.len() - i,
        {
            if self.entries[i].0.eq(key) {
                return Some(i);
            }
            i += 1;
        }
        None
    }

    /// Removes a key from the map, returning the value at the key if the key
    /// was previously in the map.
    pub fn remove(&mut self, key: &String) -> (r: Option<V>)
        requires
            old(self).wf(),
        ensures
            final(self).wf(),
            final(self)@ == old(self)@.remove(key@),
            r is Some <==> old(self)@.contains_key(key@),
            r is Some ==> r->0 == old(self)@[key@],
    {
        let found = self.find(key);
        match found {
            Some(i) => {
                let ghost es0 = self.entries@;
                let (_, v) = self.entries.remove(i);
                proof {
                    lemma_key_index(es0, key@, i as int);
                    let es1 = self.entries@;
                    assert(distinct_keys(es1)) by {
                        assert(forall|p: int, q: int|
                            0 <= p < q < es1.len() ==> (#[trigger] es1[p]).0@ != (
                            #[trigger] es1[q]).0@) by {
                            assert(forall|p: int|
                                0 <= p < es1.len() ==> #[trigger] es1[p] == if p < i {
                                    es0[p]
                                } else {
                                    es0[p + 1]
                                });
                        }
                    }
                    assert(map_of(es1) =~= map_of(es0).remove(key@)) by {
                        assert forall|k: Seq<char>| has_key(es1, k) implies has_key(es0, k) && k
                            != key@ && map_of(es1)[k] == map_of(es0)[k] by {
                            let p = key_index(es1, k);
                            lemma_key_index(es1, k, p);
                            let q: int = if p < i { p } else { p + 1 };
                            assert(es1[p] == es0[q]);
                            lemma_key_index(es0, k, q);
                        }
                        assert forall|k: Seq<char>| has_key(es0, k) && k != key@ implies has_key(
                            es1,
                            k,
                        ) by {
                            let q = key_index(es0, k);
                            lemma_key_index(es0, k, q);
                            let p: int = if q < i {
                                q
                            } else {
                                q - 1
                            };
                            assert(es1[p] == es0[q]);
                            assert(es1[p].0@ == k);
                        }
                    }
                }
                Some(v)
            },
            None => {
                proof {
                    assert(self@ =~= old(self)@.remove(key@));
                }
                None
            },
        }
    }

    /// Inserts a key-value pair into the map, overwriting any previous
    /// entry for the key.
    pub fn insert(&mut self, key: String, value: V)
        requires
            old(self).wf(),
        ensures
            final(self).wf(),
            final(self)@ == old(self)@.insert(key@, value),
    {
        let _ = self.remove(&key);
        let ghost es1 = self.entries@;
        self.entries.push((key, value));
        proof {
            let es2 = self.entries@;
            let k = key@;
            assert(!has_key(es1, k)) by {
                assert(!map_of(es1).contains_key(k));
            }
            assert(distinct_keys(es2)) by {
                assert(forall|p: int| 0 <= p < es1.len() ==> #[trigger] es2[p] == es1[p]);
                assert(es2[es1.len() as int].0@ == k);
            }
            assert(map_of(es2) =~= map_of(es1).insert(k, value)) by {
                lemma_key_index(es2, k, es1.len() as int);
                assert forall|k2: Seq<char>| has_key(es2, k2) && k2 != k implies has_key(es1, k2)
                    && map_of(es2)[k2] == map_of(es1)[k2] by {
                    let p = key_index(es2, k2);
                    lemma_key_index(es2, k2, p);
                    assert(p != es1.len());
                    assert(es2[p] == es1[p]);
                    lemma_key_index(es1, k2, p);
                }
                assert forall|k2: Seq<char>| has_key(es1, k2) implies has_key(es2, k2) by {
                    let p = key_index(es1, k2);
                    lemma_key_index(es1, k2, p);
                    assert(es2[p] == es1[p]);
                    assert(es2[p].0@ == k2);
                }
            }
            assert(map_of(es1).insert(k, value) =~= old(self)@.insert(k, value));
        }
    }
}

impl<V> Default for SharedMap<V> {
    /// An empty map.
    fn default() -> (r: Self)
        ensures
            r.wf(),
            r@ == Map::<Seq<char>, V>::empty(),
    {
        SharedMap::new()
    }
}

} // verus!
