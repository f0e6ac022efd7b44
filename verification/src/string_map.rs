//! A string-keyed map used for default headers and path parameters.
//!
//! The remote API's header and parameter mappings need only insertion and
//! lookup, with unique keys and last-write-wins semantics. Holding the pairs
//! in a vector lets every operation be verified against the mathematical
//! view `Map<Seq<char>, Seq<char>>`.

use vstd::prelude::*;

verus! {

/// A mapping from header or parameter names to values. Keys are unique and
/// inserting a key that is already present overwrites the previous value.
pub struct StringMap {
    entries: Vec<(String, String)>,
}

/// The map denoted by a sequence of key/value pairs, later pairs winning.
pub open spec fn map_of(s: Seq<(String, String)>) -> Map<Seq<char>, Seq<char>>
    decreases s.len(),
{
    if s.len() == 0 {
        Map::empty()
    } else {
        map_of(s.drop_last()).insert(s.last().0@, s.last().1@)
    }
}

/// No key occurs twice among the pairs.
pub open spec fn distinct_keys(s: Seq<(String, String)>) -> bool {
    forall|i: int, j: int| #![trigger s[i], s[j]] 0 <= i < j < s.len() ==> s[i].0@ != s[j].0@
}

impl View for StringMap {
    type V = Map<Seq<char>, Seq<char>>;

    closed spec fn view(&self) -> Map<Seq<char>, Seq<char>> {
        map_of(self.entries@)
    }
}

/// For a sequence of pairs with distinct keys, the denoted map contains
/// exactly the keys of the pairs, each bound to that pair's value.
pub proof fn lemma_map_of_entries(s: Seq<(String, String)>)
    requires
        distinct_keys(s),
    ensures
        forall|i: int|
            #![trigger s[i]]
            0 <= i < s.len() ==> map_of(s).dom().contains(s[i].0@) && map_of(s)[s[i].0@]
                == s[i].1@,
        forall|k: Seq<char>| #[trigger]
            map_of(s).dom().contains(k) ==> exists|i: int|
                #![trigger s[i]]
                0 <= i < s.len() && s[i].0@ == k,
    decreases s.len(),
{
    if s.len() > 0 {
        let prefix = s.drop_last();
        let last = s.last();
        assert forall|i: int, j: int| #![trigger prefix[i], prefix[j]]
            0 <= i < j < prefix.len() implies prefix[i].0@ != prefix[j].0@ by {
            assert(s[i] == prefix[i]);
            assert(s[j] == prefix[j]);
        }
        lemma_map_of_entries(prefix);
        assert forall|i: int| #![trigger s[i]]
            0 <= i < s.len() implies map_of(s).dom().contains(s[i].0@) && map_of(s)[s[i].0@]
            == s[i].1@ by {
            if i < s.len() - 1 {
                assert(s[i] == prefix[i]);
                assert(s[i].0@ != last.0@);
            }
        }
        assert forall|k: Seq<char>| #[trigger]
            map_of(s).dom().contains(k) implies exists|i: int|
            #![trigger s[i]]
            0 <= i < s.len() && s[i].0@ == k by {
            if k == last.0@ {
                assert(s[s.len() - 1].0@ == k);
            } else {
                assert(map_of(prefix).dom().contains(k));
                let i = choose|i: int| #![trigger prefix[i]] 0 <= i < prefix.len()
                    && prefix[i].0@ == k;
                assert(s[i].0@ == k);
            }
        }
    }
}

impl StringMap {
    #[verifier::type_invariant]
    spec fn wf(&self) -> bool {
        distinct_keys(self.entries@)
    }

    /// The empty map.
    pub fn new() -> (m: StringMap)
        ensures
            m@ == Map::<Seq<char>, Seq<char>>::empty(),
    {
        StringMap { entries: Vec::new() }
    }

    /// Binds `key` to `value`, overwriting any value the key was bound to.
    pub fn insert(&mut self, key: String, value: String)
        ensures
            final(self)@ == old(self)@.insert(key@, value@),
    {
        proof {
            use_type_invariant(&*self);
        }
        let ghost s0 = self.entries@;
        let mut entries: Vec<(String, String)> = Vec::new();
        std::mem::swap(&mut entries, &mut self.entries);
        let mut found: Option<usize> = None;
        let mut i: usize = 0;
        while i < entries.len()
            invariant
                entries@ == s0,
                i <= s0.len(),
                found is None ==> forall|j: int| #![trigger s0[j]] 0 <= j < i ==> s0[j].0@
                    != key@,
                found matches Some(f) ==> 0 <= f < s0.len() && s0[f as int].0@ == key@,
                found is Some ==> i == s0.len(),
            decreases s0.len() - i,
        {
            if entries[i].0 == key {
                found = Some(i);
                i = entries.len();
            } else {
                i = i + 1;
            }
        }
        match found {
            Some(f) => {
                entries.remove(f);
                entries.push((key, value));
                proof {
                    assert(entries@.drop_last() =~= s0.remove(f as int));
                    lemma_insert_replaced(s0, f as int, entries@);
                }
            },
            None => {
                entries.push((key, value));
                proof {
                    assert(entries@.drop_last() =~= s0);
                    assert(distinct_keys(entries@));
                    assert(map_of(entries@) == map_of(s0).insert(key@, value@));
                }
            },
        }
        self.entries = entries;
    }

    /// Looks up `key`, returning a reference to its value if the key is bound.
    pub fn get(&self, key: &str) -> (r: Option<&String>)
        ensures
            match r {
                Some(v) => self@.dom().contains(key@) && v@ == self@[key@],
                None => !self@.dom().contains(key@),
            },
    {
        proof {
            use_type_invariant(self);
            lemma_map_of_entries(self.entries@);
        }
        let owned = key.to_owned();
        let n = self.entries.len();
        let mut i: usize = 0;
        while i < n
            invariant
                n == self.entries@.len(),
                i <= n,
                owned@ == key@,
                forall|j: int| #![trigger self.entries@[j]] 0 <= j < i ==> self.entries@[j].0@
                    != key@,
            decreases n - i,
        {
            if self.entries[i].0 == owned {
                proof {
                    use_type_invariant(self);
                    lemma_map_of_entries(self.entries@);
                }
                return Some(&self.entries[i].1);
            }
            i = i + 1;
        }
        proof {
            use_type_invariant(self);
            lemma_map_of_entries(self.entries@);
        }
        None
    }

    /// The key/value pairs of the map, each key occurring exactly once.
    pub fn entries(&self) -> (r: &Vec<(String, String)>)
        ensures
            map_of(r@) == self@,
            distinct_keys(r@),
    {
        proof {
            use_type_invariant(self);
        }
        &self.entries
    }
}

/// Removing the one pair that holds `key` and pushing a fresh binding of
/// `key` denotes the same map as overwriting `key` in the starting map.
proof fn lemma_insert_replaced(s0: Seq<(String, String)>, f: int, s1: Seq<(String, String)>)
    requires
        distinct_keys(s0),
        0 <= f < s0.len(),
        s1.len() == s0.len(),
        s1.last().0@ == s0[f].0@,
        s1.drop_last() == s0.remove(f),
    ensures
        distinct_keys(s1),
        map_of(s1) == map_of(s0).insert(s1.last().0@, s1.last().1@),
{
    let key = s0[f].0@;
    let removed = s0.remove(f);
    s0.remove_ensures(f);
    assert forall|i: int, j: int| #![trigger removed[i], removed[j]]
        0 <= i < j < removed.len() implies removed[i].0@ != removed[j].0@ by {
        let i0 = if i < f { i } else { i + 1 };
        let j0 = if j < f { j } else { j + 1 };
        assert(removed[i] == s0[i0]);
        assert(removed[j] == s0[j0]);
    }
    assert forall|i: int| #![trigger removed[i]]
        0 <= i < removed.len() implies removed[i].0@ != key by {
        let i0 = if i < f { i } else { i + 1 };
        assert(removed[i] == s0[i0]);
    }
    assert forall|i: int, j: int| #![trigger s1[i], s1[j]]
        0 <= i < j < s1.len() implies s1[i].0@ != s1[j].0@ by {
        assert(s1[i] == s1.drop_last()[i]);
        if j < s1.len() - 1 {
            assert(s1[j] == s1.drop_last()[j]);
        }
    }
    lemma_map_of_entries(s0);
    lemma_map_of_entries(removed);
    assert(map_of(s1) == map_of(removed).insert(s1.last().0@, s1.last().1@));
    let lhs = map_of(removed).insert(s1.last().0@, s1.last().1@);
    let rhs = map_of(s0).insert(s1.last().0@, s1.last().1@);
    assert forall|k: Seq<char>| lhs.dom().contains(k) <==> rhs.dom().contains(k) by {
        if k != key {
            if map_of(removed).dom().contains(k) {
                let i = choose|i: int| #![trigger removed[i]] 0 <= i < removed.len()
                    && removed[i].0@ == k;
                let i0 = if i < f { i } else { i + 1 };
                assert(s0[i0].0@ == k);
            }
            if map_of(s0).dom().contains(k) {
                let i0 = choose|i0: int| #![trigger s0[i0]] 0 <= i0 < s0.len() && s0[i0].0@
                    == k;
                let i = if i0 < f { i0 } else { i0 - 1 };
                assert(removed[i] == s0[i0]);
                assert(removed[i].0@ == k);
            }
        }
    }
    assert forall|k: Seq<char>| #[trigger]
        lhs.dom().contains(k) implies lhs[k] == rhs[k] by {
        if k != key {
            let i = choose|i: int| #![trigger removed[i]] 0 <= i < removed.len()
                && removed[i].0@ == k;
            let i0 = if i < f { i } else { i + 1 };
            assert(s0[i0].0@ == k);
            assert(map_of(removed)[k] == removed[i].1@);
            assert(map_of(s0)[k] == s0[i0].1@);
        }
    }
    assert(lhs =~= rhs);
}

} // verus!
