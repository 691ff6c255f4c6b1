//! Query parameters of a request: a finite map from keys to values, kept in
//! the order in which the keys were first inserted.

use vstd::prelude::*;
use vstd::string::*;
use crate::text::str_eq;

verus! {

/// The keys and values of `entries` as sequences of characters.
pub open spec fn entry_texts(entries: Seq<(String, String)>) -> Seq<(Seq<char>, Seq<char>)> {
    Seq::new(entries.len(), |i: int| (entries[i].0@, entries[i].1@))
}

/// True when no key occurs twice in `pairs`.
pub open spec fn keys_distinct(pairs: Seq<(Seq<char>, Seq<char>)>) -> bool {
    forall|i: int, j: int| 0 <= i < j < pairs.len() ==> pairs[i].0 != pairs[j].0
}

/// True when some pair of `pairs` has the key `key`.
pub open spec fn has_key(pairs: Seq<(Seq<char>, Seq<char>)>, key: Seq<char>) -> bool {
    exists|i: int| 0 <= i < pairs.len() && #[trigger] pairs[i].0 == key
}

/// The position of a pair of `pairs` with the key `key`.
pub open spec fn position_of(pairs: Seq<(Seq<char>, Seq<char>)>, key: Seq<char>) -> int {
    choose|i: int| 0 <= i < pairs.len() && #[trigger] pairs[i].0 == key
}

/// The map that `pairs` stands for.
pub open spec fn pairs_to_map(pairs: Seq<(Seq<char>, Seq<char>)>) -> Map<Seq<char>, Seq<char>> {
    Map::new(|key: Seq<char>| has_key(pairs, key), |key: Seq<char>| pairs[position_of(pairs, key)].1)
}

/// With distinct keys, the position of the key of the `i`-th pair is `i`,
/// and the map holds that pair.
pub proof fn lemma_position(pairs: Seq<(Seq<char>, Seq<char>)>, i: int)
    requires
        keys_distinct(pairs),
        0 <= i < pairs.len(),
    ensures
        has_key(pairs, pairs[i].0),
        position_of(pairs, pairs[i].0) == i,
        pairs_to_map(pairs).dom().contains(pairs[i].0),
        pairs_to_map(pairs)[pairs[i].0] == pairs[i].1,
{
    let key = pairs[i].0;
    assert(pairs[i].0 == key);
    let p = position_of(pairs, key);
    assert(0 <= p < pairs.len() && pairs[p].0 == key);
    if p < i {
        assert(pairs[p].0 != pairs[i].0);
    } else if i < p {
        assert(pairs[i].0 != pairs[p].0);
    }
}

/// Appending a pair with a new key inserts it into the map.
pub proof fn lemma_push_new_key(
    pairs: Seq<(Seq<char>, Seq<char>)>,
    key: Seq<char>,
    value: Seq<char>,
)
    requires
        keys_distinct(pairs),
        !has_key(pairs, key),
    ensures
        keys_distinct(pairs.push((key, value))),
        pairs_to_map(pairs.push((key, value))) == pairs_to_map(pairs).insert(key, value),
{
    let grown = pairs.push((key, value));
    assert forall|i: int, j: int| 0 <= i < j < grown.len() implies grown[i].0 != grown[j].0 by {
        if j == pairs.len() {
            if grown[i].0 == key {
                assert(pairs[i].0 == key);
            }
        } else {
            assert(pairs[i].0 != pairs[j].0);
        }
    }
    assert forall|q: Seq<char>| has_key(grown, q) <==> (has_key(pairs, q) || q == key) by {
        if has_key(grown, q) {
            let p = position_of(grown, q);
            if p < pairs.len() {
                assert(pairs[p].0 == q);
            }
        }
        if has_key(pairs, q) {
            let p = position_of(pairs, q);
            assert(grown[p].0 == q);
        }
        if q == key {
            assert(grown[pairs.len() as int].0 == q);
        }
    }
    assert forall|q: Seq<char>| has_key(grown, q) implies #[trigger] pairs_to_map(grown)[q]
        == pairs_to_map(pairs).insert(key, value)[q] by {
        if q == key {
            lemma_position(grown, pairs.len() as int);
        } else {
            let p = position_of(pairs, q);
            assert(grown[p].0 == q);
            lemma_position(grown, p);
        }
    }
    assert(pairs_to_map(grown) =~= pairs_to_map(pairs).insert(key, value));
}

/// Replacing the value of the `at`-th pair updates the map at its key.
pub proof fn lemma_replace_value(
    pairs: Seq<(Seq<char>, Seq<char>)>,
    at: int,
    value: Seq<char>,
)
    requires
        keys_distinct(pairs),
        0 <= at < pairs.len(),
    ensures
        keys_distinct(pairs.update(at, (pairs[at].0, value))),
        pairs_to_map(pairs.update(at, (pairs[at].0, value))) == pairs_to_map(pairs).insert(
            pairs[at].0,
            value,
        ),
{
    let key = pairs[at].0;
    let changed = pairs.update(at, (key, value));
    assert forall|i: int, j: int| 0 <= i < j < changed.len() implies changed[i].0
        != changed[j].0 by {
        assert(changed[i].0 == pairs[i].0);
        assert(changed[j].0 == pairs[j].0);
        assert(pairs[i].0 != pairs[j].0);
    }
    assert forall|q: Seq<char>| has_key(changed, q) <==> has_key(pairs, q) by {
        if has_key(changed, q) {
            let p = position_of(changed, q);
            assert(pairs[p].0 == q);
        }
        if has_key(pairs, q) {
            let p = position_of(pairs, q);
            assert(changed[p].0 == q);
        }
    }
    lemma_position(pairs, at);
    assert forall|q: Seq<char>| has_key(changed, q) implies #[trigger] pairs_to_map(changed)[q]
        == pairs_to_map(pairs).insert(key, value)[q] by {
        let p = position_of(pairs, q);
        assert(changed[p].0 == q);
        lemma_position(changed, p);
        lemma_position(pairs, p);
    }
    assert(pairs_to_map(changed) =~= pairs_to_map(pairs).insert(key, value));
}

/// A set of query parameters. Each key occurs once; inserting a key again
/// replaces its value.
#[derive(Debug)]
pub struct QueryParams {
    entries: Vec<(String, String)>,
}

impl View for QueryParams {
    type V = Map<Seq<char>, Seq<char>>;

    closed spec fn view(&self) -> Map<Seq<char>, Seq<char>> {
        pairs_to_map(self.pairs())
    }
}

impl Clone for QueryParams {
    fn clone(&self) -> (copy: QueryParams)
        ensures
            copy@ == self@,
            copy.pairs() == self.pairs(),
    {
        proof {
            use_type_invariant(self);
        }
        let mut entries: Vec<(String, String)> = Vec::new();
        let mut i: usize = 0;
        while i < self.entries.len()
            invariant
                i <= self.entries.len(),
                entry_texts(entries@) == entry_texts(self.entries@).take(i as int),
                keys_distinct(entry_texts(self.entries@)),
            decreases self.entries.len() - i,
        {
            let ghost before = entry_texts(entries@);
            let key = self.entries[i].0.clone();
            let value = self.entries[i].1.clone();
            entries.push((key, value));
            assert(entry_texts(entries@) =~= before.push((key@, value@)));
            assert(before.push((key@, value@)) =~= entry_texts(self.entries@).take(i + 1));
            i += 1;
        }
        assert(entry_texts(entries@) =~= entry_texts(self.entries@));
        QueryParams { entries }
    }
}

impl QueryParams {
    /// The parameters in order, as sequences of characters.
    pub closed spec fn pairs(&self) -> Seq<(Seq<char>, Seq<char>)> {
        entry_texts(self.entries@)
    }

    #[verifier::type_invariant]
    spec fn distinct(&self) -> bool {
        keys_distinct(entry_texts(self.entries@))
    }

    /// An empty set of parameters.
    pub fn new() -> (params: QueryParams)
        ensures
            params@ == Map::<Seq<char>, Seq<char>>::empty(),
            params.pairs().len() == 0,
    {
        let params = QueryParams { entries: Vec::new() };
        assert(params@ =~= Map::<Seq<char>, Seq<char>>::empty());
        params
    }

    /// The number of parameters.
    pub fn len(&self) -> (count: usize)
        ensures
            count == self.pairs().len(),
    {
        self.entries.len()
    }

    /// True when there is no parameter.
    pub fn is_empty(&self) -> (empty: bool)
        ensures
            empty == (self.pairs().len() == 0),
    {
        self.entries.len() == 0
    }

    /// The position of `key` among the entries, if it is there.
    fn find(&self, key: &str) -> (found: Option<usize>)
        ensures
            found is Some == has_key(self.pairs(), key@),
            found matches Some(at) ==> at < self.pairs().len() && self.pairs()[at as int].0 == key@,
    {
        let mut i: usize = 0;
        while i < self.entries.len()
            invariant
                i <= self.entries.len(),
                forall|j: int| 0 <= j < i ==> self.pairs()[j].0 != key@,
            decreases self.entries.len() - i,
        {
            if str_eq(self.entries[i].0.as_str(), key) {
                assert(self.pairs()[i as int].0 == key@);
                return Some(i);
            }
            i += 1;
        }
        None
    }

    /// The value of `key`, if it is set.
    pub fn get(&self, key: &str) -> (value: Option<&str>)
        ensures
            value is Some == self@.dom().contains(key@),
            value matches Some(text) ==> text@ == self@[key@],
    {
        proof {
            use_type_invariant(self);
        }
        match self.find(key) {
            Some(at) => {
                proof {
                    lemma_position(self.pairs(), at as int);
                }
                Some(self.entries[at].1.as_str())
            },
            None => None,
        }
    }

    /// Sets `key` to `value`. A key that is already set keeps its place and
    /// takes the new value; a new key goes to the end.
    pub fn insert(&mut self, key: String, value: String)
        ensures
            final(self)@ == old(self)@.insert(key@, value@),
            has_key(old(self).pairs(), key@) ==> final(self).pairs().len() == old(self).pairs().len(),
            !has_key(old(self).pairs(), key@) ==> final(self).pairs() == old(self).pairs().push(
                (key@, value@),
            ),
    {
        proof {
            use_type_invariant(&*self);
        }
        let found = self.find(key.as_str());
        let ghost before = self.pairs();
        match found {
            Some(at) => {
                proof {
                    lemma_replace_value(before, at as int, value@);
                }
                let mut entries: Vec<(String, String)> = Vec::new();
                core::mem::swap(&mut entries, &mut self.entries);
                entries.set(at, (key, value));
                assert(entry_texts(entries@) =~= before.update(at as int, (key@, value@)));
                self.entries = entries;
            },
            None => {
                proof {
                    lemma_push_new_key(before, key@, value@);
                }
                let mut entries: Vec<(String, String)> = Vec::new();
                core::mem::swap(&mut entries, &mut self.entries);
                entries.push((key, value));
                assert(entry_texts(entries@) =~= before.push((key@, value@)));
                self.entries = entries;
            },
        }
    }

    /// The parameters in order, each key once.
    pub fn entries(&self) -> (entries: &Vec<(String, String)>)
        ensures
            entry_texts(entries@) == self.pairs(),
            keys_distinct(self.pairs()),
            self@ == pairs_to_map(self.pairs()),
    {
        proof {
            use_type_invariant(self);
        }
        &self.entries
    }
}

} // verus!
