//! A small map from text to text that remembers the order in which its keys
//! were first inserted.
use crate::text::same_text;
use vstd::prelude::*;

verus! {

/// One key of a `TextMap` with its value, as plain text.
pub type Pair = (Seq<char>, Seq<char>);

/// The position of the last pair of `pairs` whose key is `key`, or -1.
pub open spec fn last_index(pairs: Seq<Pair>, key: Seq<char>) -> int
    decreases pairs.len(),
{
    if pairs.len() == 0 {
        -1
    } else if pairs.last().0 == key {
        pairs.len() - 1
    } else {
        last_index(pairs.drop_last(), key)
    }
}

/// Whether some pair of `pairs` has the key `key`.
pub open spec fn has_key(pairs: Seq<Pair>, key: Seq<char>) -> bool {
    last_index(pairs, key) >= 0
}

/// The value that `pairs` gives to `key`.
pub open spec fn lookup(pairs: Seq<Pair>, key: Seq<char>) -> Option<Seq<char>> {
    if has_key(pairs, key) {
        Some(pairs[last_index(pairs, key)].1)
    } else {
        None
    }
}

/// The value that `pairs` gives to `key`, or `default` where it gives none.
pub open spec fn lookup_or(pairs: Seq<Pair>, key: Seq<char>, default: Seq<char>) -> Seq<char> {
    match lookup(pairs, key) {
        Some(v) => v,
        None => default,
    }
}

/// `pairs` with `key` set to `value`: a key that is present keeps its place,
/// a new key goes to the end.
pub open spec fn put(pairs: Seq<Pair>, key: Seq<char>, value: Seq<char>) -> Seq<Pair> {
    if has_key(pairs, key) {
        pairs.update(last_index(pairs, key), (key, value))
    } else {
        pairs.push((key, value))
    }
}

/// Whether no key occurs twice in `pairs`.
pub open spec fn distinct_keys(pairs: Seq<Pair>) -> bool {
    forall|i: int, j: int|
        0 <= i < j < pairs.len() ==> (#[trigger] pairs[i]).0 != (#[trigger] pairs[j]).0
}

/// `last_index` is -1 or the position of a pair with the key, and no pair
/// behind that position has the key.
pub proof fn lemma_last_index(pairs: Seq<Pair>, key: Seq<char>)
    ensures
        -1 <= last_index(pairs, key) < pairs.len(),
        last_index(pairs, key) >= 0 ==> pairs[last_index(pairs, key)].0 == key,
        forall|i: int| last_index(pairs, key) < i < pairs.len() ==> (#[trigger] pairs[i]).0 != key,
    decreases pairs.len(),
{
    if pairs.len() > 0 && pairs.last().0 != key {
        lemma_last_index(pairs.drop_last(), key);
        assert forall|i: int| last_index(pairs, key) < i < pairs.len() implies (
        #[trigger] pairs[i]).0 != key by {
            if i < pairs.len() - 1 {
                assert(pairs.drop_last()[i].0 != key);
            }
        }
    }
}

/// A position that holds the key, with no such position behind it, is the
/// key's last index.
pub proof fn lemma_last_index_is(pairs: Seq<Pair>, key: Seq<char>, at: int)
    requires
        -1 <= at < pairs.len(),
        at >= 0 ==> pairs[at].0 == key,
        forall|i: int| at < i < pairs.len() ==> (#[trigger] pairs[i]).0 != key,
    ensures
        last_index(pairs, key) == at,
{
    lemma_last_index(pairs, key);
    let found = last_index(pairs, key);
    if found > at {
        assert(pairs[found].0 != key);
    }
}

/// After `put`, the key has the value given, and every other key has the
/// value it had.
pub proof fn lemma_put_lookup(pairs: Seq<Pair>, key: Seq<char>, value: Seq<char>, other: Seq<char>)
    ensures
        lookup(put(pairs, key, value), key) == Some(value),
        other != key ==> lookup(put(pairs, key, value), other) == lookup(pairs, other),
{
    let after = put(pairs, key, value);
    lemma_last_index(pairs, key);
    lemma_last_index(pairs, other);
    if has_key(pairs, key) {
        let at = last_index(pairs, key);
        assert forall|i: int| at < i < after.len() implies (#[trigger] after[i]).0 != key by {
            assert(pairs[i].0 != key);
        }
        lemma_last_index_is(after, key, at);
        if other != key {
            let o = last_index(pairs, other);
            assert forall|i: int| o < i < after.len() implies (#[trigger] after[i]).0 != other by {
                if i != at {
                    assert(pairs[i].0 != other);
                }
            }
            lemma_last_index_is(after, other, o);
        }
    } else {
        lemma_last_index_is(after, key, pairs.len() as int);
        if other != key {
            let o = last_index(pairs, other);
            assert forall|i: int| o < i < after.len() implies (#[trigger] after[i]).0 != other by {
                if i < pairs.len() {
                    assert(pairs[i].0 != other);
                }
            }
            lemma_last_index_is(after, other, o);
        }
    }
}

/// `put` keeps the keys distinct.
pub proof fn lemma_put_distinct(pairs: Seq<Pair>, key: Seq<char>, value: Seq<char>)
    requires
        distinct_keys(pairs),
    ensures
        distinct_keys(put(pairs, key, value)),
{
    let after = put(pairs, key, value);
    lemma_last_index(pairs, key);
    if has_key(pairs, key) {
        let at = last_index(pairs, key);
        assert forall|i: int, j: int| 0 <= i < j < after.len() implies (#[trigger] after[i]).0 != (
        #[trigger] after[j]).0 by {
            assert(pairs[i].0 != pairs[j].0);
            assert(after[i].0 == pairs[i].0);
            assert(after[j].0 == pairs[j].0);
        }
    } else {
        assert forall|i: int, j: int| 0 <= i < j < after.len() implies (#[trigger] after[i]).0 != (
        #[trigger] after[j]).0 by {
            if j < pairs.len() {
                assert(pairs[i].0 != pairs[j].0);
            } else {
                lemma_absent_everywhere(pairs, key, i);
            }
        }
    }
}

/// Where the key has no last index, no pair has it.
pub proof fn lemma_absent_everywhere(pairs: Seq<Pair>, key: Seq<char>, i: int)
    requires
        !has_key(pairs, key),
        0 <= i < pairs.len(),
    ensures
        pairs[i].0 != key,
{
    lemma_last_index(pairs, key);
}

/// A map from text to text. Its view is the sequence of its pairs, in the
/// order in which the keys were first inserted.
#[derive(Debug)]
pub struct TextMap {
    entries: Vec<(String, String)>,
}

impl View for TextMap {
    type V = Seq<Pair>;

    closed spec fn view(&self) -> Seq<Pair> {
        self.entries@.map_values(|e: (String, String)| (e.0@, e.1@))
    }
}

impl TextMap {
    /// The empty map.
    pub fn new() -> (r: Self)
        ensures
            r@ == Seq::<Pair>::empty(),
    {
        let r = TextMap { entries: Vec::new() };
        assert(r@ =~= Seq::<Pair>::empty());
        r
    }

    /// The number of pairs.
    pub fn len(&self) -> (r: usize)
        ensures
            r == self@.len(),
    {
        self.entries.len()
    }

    /// Whether the map holds no pair.
    pub fn is_empty(&self) -> (r: bool)
        ensures
            r == (self@.len() == 0),
    {
        self.entries.len() == 0
    }

    /// The key of the pair at position `i`.
    pub fn key_at(&self, i: usize) -> (r: &String)
        requires
            i < self@.len(),
        ensures
            r@ == self@[i as int].0,
    {
        &self.entries[i].0
    }

    /// The value of the pair at position `i`.
    pub fn value_at(&self, i: usize) -> (r: &String)
        requires
            i < self@.len(),
        ensures
            r@ == self@[i as int].1,
    {
        &self.entries[i].1
    }

    /// The position of the pair with the key `key`.
    fn find(&self, key: &str) -> (r: Option<usize>)
        ensures
            match r {
                Some(i) => i < self.entries@.len() && i == last_index(self@, key@),
                None => last_index(self@, key@) == -1,
            },
    {
        let mut i: usize = self.entries.len();
        while i > 0
            invariant
                i <= self@.len(),
                self@.len() == self.entries@.len(),
                forall|j: int| i <= j < self@.len() ==> (#[trigger] self@[j]).0 != key@,
            decreases i,
        {
            i -= 1;
            if same_text(self.entries[i].0.as_str(), key) {
                proof {
                    lemma_last_index_is(self@, key@, i as int);
                }
                return Some(i);
            }
        }
        proof {
            lemma_last_index_is(self@, key@, -1);
        }
        None
    }

    /// Whether the map gives `key` a value.
    pub fn contains_key(&self, key: &str) -> (r: bool)
        ensures
            r == has_key(self@, key@),
    {
        self.find(key).is_some()
    }

    /// The value of `key`, if the map gives it one.
    pub fn get(&self, key: &str) -> (r: Option<&String>)
        ensures
            match r {
                Some(v) => lookup(self@, key@) == Some(v@),
                None => lookup(self@, key@).is_none(),
            },
    {
        match self.find(key) {
            Some(i) => Some(&self.entries[i].1),
            None => None,
        }
    }

    /// Sets `key` to `value`. A key that is present keeps its place; a new
    /// key goes to the end.
    pub fn insert(&mut self, key: String, value: String)
        ensures
            final(self)@ == put(old(self)@, key@, value@),
            distinct_keys(old(self)@) ==> distinct_keys(final(self)@),
    {
        proof {
            if distinct_keys(old(self)@) {
                lemma_put_distinct(old(self)@, key@, value@);
            }
        }
        match self.find(key.as_str()) {
            Some(i) => {
                self.entries.set(i, (key, value));
                assert(self@ =~= put(old(self)@, key@, value@));
            },
            None => {
                self.entries.push((key, value));
                assert(self@ =~= put(old(self)@, key@, value@));
            },
        }
    }

    /// A copy of the map.
    pub fn duplicate(&self) -> (r: Self)
        ensures
            r@ == self@,
    {
        let mut entries: Vec<(String, String)> = Vec::new();
        let mut i: usize = 0;
        while i < self.entries.len()
            invariant
                i <= self.entries@.len(),
                entries@.len() == i,
                forall|j: int|
                    0 <= j < i ==> (#[trigger] entries@[j]).0@ == self.entries@[j].0@
                        && entries@[j].1@ == self.entries@[j].1@,
            decreases self.entries@.len() - i,
        {
            entries.push((self.entries[i].0.clone(), self.entries[i].1.clone()));
            i += 1;
        }
        let r = TextMap { entries };
        assert(r@ =~= self@);
        r
    }
}

impl Clone for TextMap {
    fn clone(&self) -> (r: Self)
        ensures
            r@ == self@,
    {
        self.duplicate()
    }
}

} // verus!
