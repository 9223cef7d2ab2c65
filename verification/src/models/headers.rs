//! Header collections: names mapped to values, each name held once, in the
//! order in which the names first came.

use vstd::prelude::*;
use vstd::utf8::encode_utf8;
use crate::text::same_text;

verus! {

/// One header as a pair of texts: its name and its value.
pub type Pair = (Seq<char>, Seq<char>);

/// Some entry holds the name `key`.
pub open spec fn has_key(entries: Seq<Pair>, key: Seq<char>) -> bool {
    exists|i: int| 0 <= i < entries.len() && (#[trigger] entries[i]).0 == key
}

/// No name is held twice.
pub open spec fn distinct_keys(entries: Seq<Pair>) -> bool {
    forall|i: int, j: int|
        0 <= i < j < entries.len() ==> (#[trigger] entries[i]).0 != (#[trigger] entries[j]).0
}

/// The place of an entry that holds the name `key`, where there is one.
pub open spec fn index_of(entries: Seq<Pair>, key: Seq<char>) -> int {
    choose|i: int| 0 <= i < entries.len() && (#[trigger] entries[i]).0 == key
}

/// The value held under the name `key`, if any.
pub open spec fn value_of(entries: Seq<Pair>, key: Seq<char>) -> Option<Seq<char>> {
    if has_key(entries, key) {
        Some(entries[index_of(entries, key)].1)
    } else {
        None
    }
}

/// The entries after `value` is stored under `key`: a name that is already
/// held keeps its place and takes the new value, a new name goes to the end.
pub open spec fn put(entries: Seq<Pair>, key: Seq<char>, value: Seq<char>) -> Seq<Pair> {
    if has_key(entries, key) {
        entries.update(index_of(entries, key), (key, value))
    } else {
        entries.push((key, value))
    }
}

/// The mapping from names to values that the entries stand for.
pub open spec fn map_of(entries: Seq<Pair>) -> Map<Seq<char>, Seq<char>> {
    Map::new(|key: Seq<char>| has_key(entries, key), |key: Seq<char>| value_of(entries, key)->0)
}

/// The length of one header: the bytes of its name and of its value.
pub open spec fn pair_size(pair: Pair) -> nat {
    encode_utf8(pair.0).len() + encode_utf8(pair.1).len()
}

/// The lengths of all names and values, added up.
pub open spec fn total_size(entries: Seq<Pair>) -> nat
    decreases entries.len(),
{
    if entries.len() == 0 {
        0
    } else {
        total_size(entries.drop_last()) + pair_size(entries.last())
    }
}

/// A count as far as a `usize` can hold it.
pub open spec fn capped(count: nat) -> usize {
    if count <= usize::MAX {
        count as usize
    } else {
        usize::MAX
    }
}

/// Where no name is held twice, a name is found at one place only.
pub proof fn lemma_index_of_unique(entries: Seq<Pair>, key: Seq<char>, at: int)
    requires
        distinct_keys(entries),
        0 <= at < entries.len(),
        entries[at].0 == key,
    ensures
        has_key(entries, key),
        index_of(entries, key) == at,
        value_of(entries, key) == Some(entries[at].1),
{
}

/// Storing a value keeps the names distinct, and afterwards the name maps to
/// the new value while every other name maps to what it did before.
pub proof fn lemma_put(entries: Seq<Pair>, key: Seq<char>, value: Seq<char>)
    requires
        distinct_keys(entries),
    ensures
        distinct_keys(put(entries, key, value)),
        forall|name: Seq<char>| #[trigger]
            has_key(put(entries, key, value), name) == (name == key || has_key(entries, name)),
        map_of(put(entries, key, value)) == map_of(entries).insert(key, value),
{
    let after = put(entries, key, value);
    let at = if has_key(entries, key) {
        index_of(entries, key)
    } else {
        entries.len() as int
    };
    assert forall|i: int| 0 <= i < after.len() && i != at implies after[i] == entries[i]
        && entries[i].0 != key by {
        if has_key(entries, key) {
            lemma_index_of_unique(entries, key, at);
            if entries[i].0 == key {
                lemma_index_of_unique(entries, key, i);
            }
        }
    }
    assert forall|k: Seq<char>| has_key(after, k) == (k == key || has_key(entries, k)) by {
        if k == key {
            assert(after[at].0 == k);
        }
    }
    assert forall|k: Seq<char>| has_key(after, k) implies value_of(after, k) == (if k == key {
        Some(value)
    } else {
        value_of(entries, k)
    }) by {
        if k == key {
            lemma_index_of_unique(after, k, at);
        } else {
            let i = index_of(entries, k);
            lemma_index_of_unique(entries, k, i);
            lemma_index_of_unique(after, k, i);
        }
    }
}

/// A collection of headers. Each name is held once; a name keeps the place
/// at which it first came.
#[derive(Debug)]
pub struct Headers {
    entries: Vec<(String, String)>,
}

impl View for Headers {
    type V = Seq<Pair>;

    closed spec fn view(&self) -> Seq<Pair> {
        self.entries.deep_view()
    }
}

impl DeepView for Headers {
    type V = Seq<Pair>;

    open spec fn deep_view(&self) -> Seq<Pair> {
        self@
    }
}

impl Headers {
    #[verifier::type_invariant]
    spec fn names_are_distinct(self) -> bool {
        distinct_keys(self.entries.deep_view())
    }

    /// The mapping from names to values.
    pub open spec fn map(&self) -> Map<Seq<char>, Seq<char>> {
        map_of(self@)
    }

    /// An empty collection.
    pub fn new() -> (headers: Headers)
        ensures
            headers@ == Seq::<Pair>::empty(),
    {
        let headers = Headers { entries: Vec::new() };
        headers
    }

    /// The number of headers held.
    pub fn len(&self) -> (n: usize)
        ensures
            n == self@.len(),
            distinct_keys(self@),
    {
        proof {
            use_type_invariant(self);
        }
        self.entries.len()
    }

    /// The name of the header at place `at`.
    pub fn name_at(&self, at: usize) -> (name: &String)
        requires
            at < self@.len(),
        ensures
            name@ == self@[at as int].0,
    {
        &self.entries[at].0
    }

    /// The value of the header at place `at`.
    pub fn value_at(&self, at: usize) -> (value: &String)
        requires
            at < self@.len(),
        ensures
            value@ == self@[at as int].1,
    {
        &self.entries[at].1
    }

    /// The place at which `key` is held, if it is held.
    pub fn position(&self, key: &str) -> (found: Option<usize>)
        ensures
            match found {
                Some(at) => at < self@.len() && self@[at as int].0 == key@ && index_of(
                    self@,
                    key@,
                ) == at && has_key(self@, key@),
                None => !has_key(self@, key@),
            },
    {
        proof {
            use_type_invariant(self);
        }
        let mut at: usize = 0;
        while at < self.entries.len()
            invariant
                at <= self.entries@.len(),
                distinct_keys(self@),
                forall|k: int| 0 <= k < at ==> (#[trigger] self@[k]).0 != key@,
            decreases self.entries@.len() - at,
        {
            if same_text(self.entries[at].0.as_str(), key) {
                proof {
                    lemma_index_of_unique(self@, key@, at as int);
                }
                return Some(at);
            }
            at += 1;
        }
        None
    }

    /// The value held under `key`, if any.
    pub fn get(&self, key: &str) -> (value: Option<&String>)
        ensures
            match value {
                Some(v) => value_of(self@, key@) == Some(v@),
                None => value_of(self@, key@) is None,
            },
    {
        match self.position(key) {
            Some(at) => Some(&self.entries[at].1),
            None => None,
        }
    }

    /// Stores `value` under `key`. A name that is already held keeps its
    /// place and takes the new value; a new name goes to the end.
    pub fn insert(&mut self, key: String, value: String)
        ensures
            final(self)@ == put(old(self)@, key@, value@),
            final(self).map() == old(self).map().insert(key@, value@),
    {
        proof {
            use_type_invariant(&*self);
            lemma_put(self@, key@, value@);
        }
        let ghost before = self@;
        match self.position(key.as_str()) {
            Some(at) => {
                let mut entries: Vec<(String, String)> = Vec::new();
                std::mem::swap(&mut entries, &mut self.entries);
                entries[at] = (key, value);
                assert(entries.deep_view() =~= put(before, key@, value@));
                std::mem::swap(&mut entries, &mut self.entries);
            },
            None => {
                let mut entries: Vec<(String, String)> = Vec::new();
                std::mem::swap(&mut entries, &mut self.entries);
                entries.push((key, value));
                assert(entries.deep_view() =~= put(before, key@, value@));
                std::mem::swap(&mut entries, &mut self.entries);
            },
        }
    }

    /// The lengths in bytes of all names and values, added up. A sum that a
    /// `usize` cannot hold gives `usize::MAX`.
    pub fn size(&self) -> (size: usize)
        ensures
            size == capped(total_size(self@)),
    {
        let mut size: usize = 0;
        let mut at: usize = 0;
        while at < self.entries.len()
            invariant
                at <= self.entries@.len(),
                size == capped(total_size(self@.take(at as int))),
            decreases self.entries@.len() - at,
        {
            assert(self@.take(at + 1).drop_last() =~= self@.take(at as int));
            let name: usize = self.entries[at].0.as_str().as_bytes().len();
            let value: usize = self.entries[at].1.as_str().as_bytes().len();
            size = add_capped(add_capped(size, name), value);
            at += 1;
        }
        assert(self@.take(at as int) =~= self@);
        size
    }
}

/// Adds two counts; a sum that a `usize` cannot hold gives `usize::MAX`.
pub fn add_capped(a: usize, b: usize) -> (sum: usize)
    ensures
        sum == capped((a + b) as nat),
{
    if b > usize::MAX - a {
        usize::MAX
    } else {
        a + b
    }
}

} // verus!
