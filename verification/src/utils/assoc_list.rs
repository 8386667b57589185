use vstd::prelude::*;

verus! {

/// A map from strings to values, kept as a list of entries in which no key
/// occurs twice. Lookups walk the list.
pub struct AssocList<V> {
    entries: Vec<(String, V)>,
}

spec fn key_at<V>(entries: Seq<(String, V)>, i: int) -> Seq<char> {
    entries[i].0@
}

spec fn distinct_keys<V>(entries: Seq<(String, V)>) -> bool {
    forall|i: int, j: int|
        0 <= i < j < entries.len() ==> #[trigger] key_at(entries, i) != #[trigger] key_at(
            entries,
            j,
        )
}

spec fn holds_at<V>(entries: Seq<(String, V)>, key: Seq<char>, i: int) -> bool {
    0 <= i < entries.len() && key_at(entries, i) == key
}

spec fn map_of<V>(entries: Seq<(String, V)>) -> Map<Seq<char>, V> {
    Map::new(
        |key: Seq<char>| exists|i: int| holds_at(entries, key, i),
        |key: Seq<char>| entries[choose|i: int| holds_at(entries, key, i)].1,
    )
}

proof fn lemma_map_at<V>(entries: Seq<(String, V)>, i: int)
    requires
        distinct_keys(entries),
        0 <= i < entries.len(),
    ensures
        map_of(entries).contains_key(key_at(entries, i)),
        map_of(entries)[key_at(entries, i)] == entries[i].1,
{
    let key = key_at(entries, i);
    assert(holds_at(entries, key, i));
    let chosen = choose|j: int| holds_at(entries, key, j);
    if chosen < i {
        assert(key_at(entries, chosen) != key_at(entries, i));
    } else if i < chosen {
        assert(key_at(entries, i) != key_at(entries, chosen));
    }
}

impl<V> AssocList<V> {
    #[verifier::type_invariant]
    spec fn valid(self) -> bool {
        distinct_keys(self.entries@)
    }

    /// The map that the list stands for.
    pub closed spec fn map(&self) -> Map<Seq<char>, V> {
        map_of(self.entries@)
    }

    pub fn new() -> (r: AssocList<V>)
        ensures
            r.map() == Map::<Seq<char>, V>::empty(),
    {
        let r = AssocList { entries: Vec::new() };
        assert(r.map() =~= Map::<Seq<char>, V>::empty());
        r
    }

    /// The place of `key` in the list.
    fn position(&self, key: &String) -> (r: Option<usize>)
        ensures
            match r {
                Some(i) => holds_at(self.entries@, key@, i as int) && self.map().contains_key(key@)
                    && self.map()[key@] == self.entries@[i as int].1,
                None => !self.map().contains_key(key@) && forall|j: int|
                    !holds_at(self.entries@, key@, j),
            },
    {
        proof {
            use_type_invariant(self);
        }
        let mut i: usize = 0;
        while i < self.entries.len()
            invariant
                i <= self.entries@.len(),
                distinct_keys(self.entries@),
                forall|j: int| 0 <= j < i ==> !holds_at(self.entries@, key@, j),
            decreases self.entries@.len() - i,
        {
            if self.entries[i].0 == *key {
                proof {
                    assert(key_at(self.entries@, i as int) == key@);
                    lemma_map_at(self.entries@, i as int);
                }
                return Some(i);
            }
            assert(key_at(self.entries@, i as int) != key@);
            i = i + 1;
        }
        None
    }

    pub fn contains_key(&self, key: &String) -> (r: bool)
        ensures
            r == self.map().contains_key(key@),
    {
        self.position(key).is_some()
    }

    pub fn get(&self, key: &String) -> (r: Option<&V>)
        ensures
            match r {
                Some(value) => self.map().contains_key(key@) && *value == self.map()[key@],
                None => !self.map().contains_key(key@),
            },
    {
        match self.position(key) {
            Some(i) => Some(&self.entries[i].1),
            None => None,
        }
    }

    /// The list with `value` under `key`, in place of what may be there.
    pub fn insert(self, key: String, value: V) -> (r: AssocList<V>)
        ensures
            r.map() == self.map().insert(key@, value),
    {
        proof {
            use_type_invariant(&self);
        }
        let found = self.position(&key);
        let ghost before = self.entries@;
        let mut entries = self.entries;
        let ghost place: int;
        match found {
            Some(i) => {
                entries.set(i, (key, value));
                proof {
                    place = i as int;
                }
            },
            None => {
                entries.push((key, value));
                proof {
                    place = before.len() as int;
                }
            },
        }
        proof {
            let after = entries@;
            assert(key_at(after, place) == key@);
            assert(after[place].1 == value);
            assert forall|j: int| 0 <= j < after.len() && j != place implies j < before.len()
                && after[j] == before[j] && key_at(after, j) == key_at(before, j) && key_at(
                before,
                j,
            ) != key@ by {
                assert(!holds_at(before, key@, j) || j == place);
            }
            assert(distinct_keys(after)) by {
                assert forall|i: int, j: int| 0 <= i < j < after.len() implies key_at(after, i)
                    != key_at(after, j) by {
                    if i != place && j != place {
                        assert(key_at(before, i) != key_at(before, j));
                    }
                }
            }
            lemma_map_at(after, place);
            let wanted = map_of(before).insert(key@, value);
            assert forall|k: Seq<char>| #[trigger]
                map_of(after).contains_key(k) == wanted.contains_key(k) by {
                if k != key@ {
                    if map_of(before).contains_key(k) {
                        let j = choose|j: int| holds_at(before, k, j);
                        assert(holds_at(after, k, j));
                    }
                    if map_of(after).contains_key(k) {
                        let j = choose|j: int| holds_at(after, k, j);
                        assert(holds_at(before, k, j));
                    }
                }
            }
            assert forall|k: Seq<char>| map_of(after).contains_key(k) implies #[trigger] map_of(
                after,
            )[k] == wanted[k] by {
                if k != key@ {
                    let j = choose|j: int| holds_at(after, k, j);
                    assert(holds_at(before, k, j));
                    lemma_map_at(before, j);
                    lemma_map_at(after, j);
                }
            }
            assert(map_of(after) =~= map_of(before).insert(key@, value));
        }
        AssocList { entries }
    }

    /// The list without what is under `key`.
    pub fn remove(self, key: &String) -> (r: AssocList<V>)
        ensures
            r.map() == self.map().remove(key@),
    {
        proof {
            use_type_invariant(&self);
        }
        let found = self.position(key);
        let ghost before = self.entries@;
        let mut entries = self.entries;
        match found {
            Some(i) => {
                entries.remove(i);
                proof {
                    let after = entries@;
                    let place = i as int;
                    assert forall|j: int| 0 <= j < after.len() implies key_at(after, j) == key_at(
                        before,
                        if j < place {
                            j
                        } else {
                            j + 1
                        },
                    ) && after[j] == before[if j < place {
                        j
                    } else {
                        j + 1
                    }] by {}
                    assert(distinct_keys(after)) by {
                        assert forall|a: int, b: int| 0 <= a < b < after.len() implies key_at(
                            after,
                            a,
                        ) != key_at(after, b) by {
                            let a0 = if a < place {
                                a
                            } else {
                                a + 1
                            };
                            let b0 = if b < place {
                                b
                            } else {
                                b + 1
                            };
                            assert(key_at(before, a0) != key_at(before, b0));
                        }
                    }
                    let wanted = map_of(before).remove(key@);
                    assert forall|k: Seq<char>| k != key@ implies #[trigger] map_of(
                        after,
                    ).contains_key(k) == wanted.contains_key(k) by {
                        if map_of(before).contains_key(k) {
                            let j = choose|j: int| holds_at(before, k, j);
                            let j1 = if j < place {
                                j
                            } else {
                                j - 1
                            };
                            assert(holds_at(after, k, j1));
                        }
                        if map_of(after).contains_key(k) {
                            let j = choose|j: int| holds_at(after, k, j);
                            let j0 = if j < place {
                                j
                            } else {
                                j + 1
                            };
                            assert(holds_at(before, k, j0));
                        }
                    }
                    assert forall|k: Seq<char>| map_of(after).contains_key(k) && k != key@
                        implies #[trigger] map_of(after)[k] == wanted[k] by {
                        let j = choose|j: int| holds_at(after, k, j);
                        let j0 = if j < place {
                            j
                        } else {
                            j + 1
                        };
                        assert(holds_at(before, k, j0));
                        lemma_map_at(before, j0);
                        lemma_map_at(after, j);
                    }
                    assert(!map_of(after).contains_key(key@)) by {
                        if map_of(after).contains_key(key@) {
                            let j = choose|j: int| holds_at(after, key@, j);
                            let j0 = if j < place {
                                j
                            } else {
                                j + 1
                            };
                            assert(key_at(before, j0) == key@);
                            if j0 < place {
                                assert(key_at(before, j0) != key_at(before, place));
                            } else {
                                assert(key_at(before, place) != key_at(before, j0));
                            }
                        }
                    }
                    assert(map_of(after) =~= map_of(before).remove(key@));
                }
            },
            None => {
                assert(map_of(before) =~= map_of(before).remove(key@));
            },
        }
        AssocList { entries }
    }
}

} // verus!
