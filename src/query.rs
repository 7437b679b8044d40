//! The parameters of a request's query string, as a map from key to value.

use vstd::prelude::*;

verus! {

/// The map that a list of key/value pairs denotes when a later pair
/// overrides an earlier pair with the same key.
pub open spec fn pairs_map(pairs: Seq<(String, String)>) -> Map<Seq<char>, Seq<char>>
    decreases pairs.len(),
{
    if pairs.len() == 0 {
        Map::empty()
    } else {
        pairs_map(pairs.drop_last()).insert(pairs.last().0@, pairs.last().1@)
    }
}

/// If the last pair with key `k` stands at `i`, `k` maps to that pair's value.
proof fn lemma_last_pair_wins(pairs: Seq<(String, String)>, k: Seq<char>, i: int)
    requires
        0 <= i < pairs.len(),
        pairs[i].0@ == k,
        forall|j: int| i < j < pairs.len() ==> pairs[j].0@ != k,
    ensures
        pairs_map(pairs).contains_key(k),
        pairs_map(pairs)[k] == pairs[i].1@,
    decreases pairs.len(),
{
    if i < pairs.len() - 1 {
        let rest = pairs.drop_last();
        assert forall|j: int| i < j < rest.len() implies rest[j].0@ != k by {
            assert(rest[j] == pairs[j]);
        }
        lemma_last_pair_wins(rest, k, i);
    }
}

/// A key that no pair holds is not in the map.
proof fn lemma_no_pair(pairs: Seq<(String, String)>, k: Seq<char>)
    requires
        forall|j: int| 0 <= j < pairs.len() ==> pairs[j].0@ != k,
    ensures
        !pairs_map(pairs).contains_key(k),
    decreases pairs.len(),
{
    if pairs.len() > 0 {
        let rest = pairs.drop_last();
        assert forall|j: int| 0 <= j < rest.len() implies rest[j].0@ != k by {
            assert(rest[j] == pairs[j]);
        }
        lemma_no_pair(rest, k);
    }
}

/// The parameters of a query string. Setting a key that is already present
/// replaces its value.
#[derive(Debug, Clone)]
pub struct QueryParams {
    pairs: Vec<(String, String)>,
}

impl View for QueryParams {
    type V = Map<Seq<char>, Seq<char>>;

    closed spec fn view(&self) -> Map<Seq<char>, Seq<char>> {
        pairs_map(self.pairs@)
    }
}

impl QueryParams {
    /// A query with no parameters.
    pub fn new() -> (r: QueryParams)
        ensures
            r@ == Map::<Seq<char>, Seq<char>>::empty(),
    {
        QueryParams { pairs: Vec::new() }
    }

    /// Sets `key` to `value`.
    pub fn insert(&mut self, key: String, value: String)
        ensures
            final(self)@ == old(self)@.insert(key@, value@),
    {
        self.pairs.push((key, value));
        assert(final(self).pairs@.drop_last() == old(self).pairs@);
    }

    /// Whether the query holds no parameter at all.
    pub fn is_empty(&self) -> (r: bool)
        ensures
            r == (self@ == Map::<Seq<char>, Seq<char>>::empty()),
    {
        let r = self.pairs.len() == 0;
        if !r {
            assert(self@.contains_key(self.pairs@.last().0@));
            assert(!Map::<Seq<char>, Seq<char>>::empty().contains_key(self.pairs@.last().0@));
        }
        r
    }

    /// The value of `key`, if the query sets it.
    pub fn get(&self, key: &String) -> (r: Option<&String>)
        ensures
            match r {
                Some(v) => self@.contains_key(key@) && self@[key@] == v@,
                None => !self@.contains_key(key@),
            },
    {
        let mut i: usize = self.pairs.len();
        while i > 0
            invariant
                i <= self.pairs@.len(),
                forall|j: int| i <= j < self.pairs@.len() ==> self.pairs@[j].0@ != key@,
            decreases i,
        {
            i = i - 1;
            if self.pairs[i].0 == *key {
                proof {
                    lemma_last_pair_wins(self.pairs@, key@, i as int);
                }
                return Some(&self.pairs[i].1);
            }
        }
        proof {
            lemma_no_pair(self.pairs@, key@);
        }
        None
    }

    /// Whether the query sets `key`.
    pub fn contains_key(&self, key: &String) -> (r: bool)
        ensures
            r == self@.contains_key(key@),
    {
        self.get(key).is_some()
    }
}

} // verus!
