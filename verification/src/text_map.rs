//! A small string-to-string map that keeps its entries in insertion order.
//! Header carriers and baggage are both held in one.

use vstd::prelude::*;
use vstd::string::StringExecFns;

verus! {

/// An entry as specifications see it: key and value as character sequences.
pub type TextPair = (Seq<char>, Seq<char>);

/// The entries of a vector of string pairs, each string taken by its view.
pub open spec fn pairs_of(v: Seq<(String, String)>) -> Seq<TextPair> {
    v.map_values(|p: (String, String)| (p.0@, p.1@))
}

/// No key occurs at two positions.
pub open spec fn distinct_keys(s: Seq<TextPair>) -> bool {
    forall|i: int, j: int| 0 <= i < j < s.len() ==> (#[trigger] s[i]).0 != (#[trigger] s[j]).0
}

/// The map that a list of entries stands for. Where a key occurs more than
/// once, the entry nearest the end decides.
pub open spec fn pairs_map(s: Seq<TextPair>) -> Map<Seq<char>, Seq<char>>
    decreases s.len(),
{
    if s.len() == 0 {
        Map::empty()
    } else {
        pairs_map(s.drop_last()).insert(s.last().0, s.last().1)
    }
}

/// The first position at which `key` occurs, or the length of the list
/// where it does not occur.
pub open spec fn position_of(s: Seq<TextPair>, key: Seq<char>) -> int
    decreases s.len(),
{
    if s.len() == 0 {
        0
    } else if s[0].0 == key {
        0
    } else {
        1 + position_of(s.skip(1), key)
    }
}

/// The entries after `value` was stored under `key`: a key that is there
/// keeps its place and gets the new value; a new key goes to the end.
pub open spec fn pairs_after_set(s: Seq<TextPair>, key: Seq<char>, value: Seq<char>) -> Seq<TextPair> {
    if position_of(s, key) < s.len() {
        s.update(position_of(s, key), (key, value))
    } else {
        s.push((key, value))
    }
}

/// `position_of` finds the first entry with the key, if there is one.
pub proof fn lemma_position_of(s: Seq<TextPair>, key: Seq<char>)
    ensures
        0 <= position_of(s, key) <= s.len(),
        position_of(s, key) < s.len() ==> s[position_of(s, key)].0 == key,
        forall|j: int| 0 <= j < position_of(s, key) ==> (#[trigger] s[j]).0 != key,
    decreases s.len(),
{
    if s.len() > 0 && s[0].0 != key {
        lemma_position_of(s.skip(1), key);
        assert forall|j: int| 0 <= j < position_of(s, key) implies (#[trigger] s[j]).0 != key by {
            if j > 0 {
                assert(s.skip(1)[j - 1] == s[j]);
            }
        }
    }
}

/// A key is in the map exactly when some entry carries it.
pub proof fn lemma_pairs_map_domain(s: Seq<TextPair>, key: Seq<char>)
    ensures
        pairs_map(s).contains_key(key) <==> exists|i: int| 0 <= i < s.len() && (#[trigger] s[i]).0 == key,
    decreases s.len(),
{
    if s.len() > 0 {
        lemma_pairs_map_domain(s.drop_last(), key);
        if exists|i: int| 0 <= i < s.len() && (#[trigger] s[i]).0 == key {
            let i = choose|i: int| 0 <= i < s.len() && (#[trigger] s[i]).0 == key;
            if i < s.len() - 1 {
                assert(s.drop_last()[i].0 == key);
            }
        }
    }
}

/// With distinct keys, the map gives each entry's value under its key.
pub proof fn lemma_pairs_map_lookup(s: Seq<TextPair>, i: int)
    requires
        distinct_keys(s),
        0 <= i < s.len(),
    ensures
        pairs_map(s).contains_key(s[i].0),
        pairs_map(s)[s[i].0] == s[i].1,
    decreases s.len(),
{
    if i < s.len() - 1 {
        lemma_pairs_map_lookup(s.drop_last(), i);
    }
}

/// Replacing the value of one entry replaces it in the map and nothing else.
pub proof fn lemma_pairs_map_update(s: Seq<TextPair>, i: int, value: Seq<char>)
    requires
        distinct_keys(s),
        0 <= i < s.len(),
    ensures
        distinct_keys(s.update(i, (s[i].0, value))),
        pairs_map(s.update(i, (s[i].0, value))) == pairs_map(s).insert(s[i].0, value),
    decreases s.len(),
{
    let t = s.update(i, (s[i].0, value));
    if i == s.len() - 1 {
        assert(t.drop_last() =~= s.drop_last());
    } else {
        lemma_pairs_map_update(s.drop_last(), i, value);
        assert(t.drop_last() =~= s.drop_last().update(i, (s[i].0, value)));
    }
}

/// A list of distinct keys stands for a finite map with one key per entry.
pub proof fn lemma_pairs_map_len(s: Seq<TextPair>)
    requires
        distinct_keys(s),
    ensures
        pairs_map(s).dom().finite(),
        pairs_map(s).dom().len() == s.len(),
    decreases s.len(),
{
    if s.len() > 0 {
        lemma_pairs_map_len(s.drop_last());
        lemma_pairs_map_domain(s.drop_last(), s.last().0);
    }
}

/// An insertion-ordered map from strings to strings.
pub struct TextMap {
    entries: Vec<(String, String)>,
}

impl View for TextMap {
    type V = Map<Seq<char>, Seq<char>>;

    open spec fn view(&self) -> Map<Seq<char>, Seq<char>> {
        pairs_map(self.pairs())
    }
}

impl TextMap {
    #[verifier::type_invariant]
    pub closed spec fn well_formed(self) -> bool {
        distinct_keys(pairs_of(self.entries@))
    }

    /// The entries in the order in which their keys were first set.
    pub closed spec fn pairs(&self) -> Seq<TextPair> {
        pairs_of(self.entries@)
    }

    /// A map without entries.
    pub fn new() -> (m: Self)
        ensures
            m.pairs() == Seq::<TextPair>::empty(),
            m@ == Map::<Seq<char>, Seq<char>>::empty(),
            m.well_formed(),
    {
        let m = TextMap { entries: Vec::new() };
        m
    }

    /// The number of entries.
    pub fn len(&self) -> (n: usize)
        ensures
            n == self.pairs().len(),
            n == self@.dom().len(),
    {
        proof {
            use_type_invariant(self);
            lemma_pairs_map_len(self.pairs());
        }
        self.entries.len()
    }

    /// Whether the map has no entry.
    pub fn is_empty(&self) -> (b: bool)
        ensures
            b == (self.pairs().len() == 0),
            b == (self@ == Map::<Seq<char>, Seq<char>>::empty()),
    {
        proof {
            use_type_invariant(self);
            lemma_pairs_map_len(self.pairs());
        }
        self.entries.len() == 0
    }

    /// The position of `key` among the entries, if it is there.
    fn position(&self, key: &String) -> (r: Option<usize>)
        ensures
            match r {
                Some(i) => i < self.pairs().len() && self.pairs()[i as int].0 == key@ && i == position_of(
                    self.pairs(),
                    key@,
                ),
                None => position_of(self.pairs(), key@) == self.pairs().len() && forall|j: int|
                    0 <= j < self.pairs().len() ==> (#[trigger] self.pairs()[j]).0 != key@,
            },
    {
        let mut i: usize = 0;
        while i < self.entries.len()
            invariant
                i <= self.entries.len(),
                forall|j: int| 0 <= j < i ==> (#[trigger] self.pairs()[j]).0 != key@,
            decreases self.entries.len() - i,
        {
            if self.entries[i].0 == *key {
                proof {
                    lemma_position_of(self.pairs(), key@);
                    assert(self.pairs()[i as int].0 == key@);
                }
                return Some(i);
            }
            i += 1;
        }
        proof {
            lemma_position_of(self.pairs(), key@);
        }
        None
    }

    /// Whether `key` has a value.
    pub fn contains_key(&self, key: &str) -> (b: bool)
        ensures
            b == self@.contains_key(key@),
    {
        let k = String::from_str(key);
        let found = self.position(&k);
        proof {
            use_type_invariant(self);
            lemma_pairs_map_domain(self.pairs(), key@);
        }
        found.is_some()
    }

    /// The value stored under `key`.
    pub fn get(&self, key: &str) -> (r: Option<String>)
        ensures
            r is Some <==> self@.contains_key(key@),
            r is Some ==> r->0@ == self@[key@],
    {
        let k = String::from_str(key);
        let found = self.position(&k);
        proof {
            use_type_invariant(self);
            lemma_pairs_map_domain(self.pairs(), key@);
        }
        match found {
            Some(i) => {
                proof {
                    lemma_pairs_map_lookup(self.pairs(), i as int);
                }
                Some(self.entries[i].1.clone())
            },
            None => None,
        }
    }

    /// Stores `value` under `key`. A key that is already there keeps its
    /// place in the order; a new key goes to the end.
    pub fn set(&mut self, key: String, value: String)
        ensures
            final(self)@ == old(self)@.insert(key@, value@),
            final(self).pairs() == pairs_after_set(old(self).pairs(), key@, value@),
    {
        let found = self.position(&key);
        proof {
            use_type_invariant(&*self);
            lemma_pairs_map_domain(self.pairs(), key@);
        }
        let ghost before = self.pairs();
        match found {
            Some(i) => {
                proof {
                    lemma_pairs_map_update(before, i as int, value@);
                }
                let mut entries: Vec<(String, String)> = Vec::new();
                core::mem::swap(&mut entries, &mut self.entries);
                entries.set(i, (key, value));
                assert(pairs_of(entries@) =~= before.update(i as int, (key@, value@)));
                self.entries = entries;
            },
            None => {
                let mut entries: Vec<(String, String)> = Vec::new();
                core::mem::swap(&mut entries, &mut self.entries);
                entries.push((key, value));
                let ghost after = pairs_of(entries@);
                assert(after.drop_last() =~= before);
                assert forall|a: int, b: int| 0 <= a < b < after.len() implies (#[trigger] after[a]).0 != (#[trigger] after[b]).0 by {
                    if b < before.len() {
                        assert(before[a].0 != before[b].0);
                    } else {
                        assert(before[a].0 != key@);
                    }
                }
                self.entries = entries;
            },
        }
    }

    /// The entries as a slice of pairs, in order.
    pub fn entries(&self) -> (v: &Vec<(String, String)>)
        ensures
            pairs_of(v@) == self.pairs(),
            distinct_keys(self.pairs()),
    {
        proof {
            use_type_invariant(self);
        }
        &self.entries
    }

    /// The key of the entry at position `i`.
    pub fn key_at(&self, i: usize) -> (k: String)
        requires
            i < self.pairs().len(),
        ensures
            k@ == self.pairs()[i as int].0,
    {
        self.entries[i].0.clone()
    }

    /// The value of the entry at position `i`.
    pub fn value_at(&self, i: usize) -> (v: String)
        requires
            i < self.pairs().len(),
        ensures
            v@ == self.pairs()[i as int].1,
    {
        self.entries[i].1.clone()
    }
}

impl Clone for TextMap {
    /// A copy with the same entries in the same order.
    fn clone(&self) -> (m: Self)
        ensures
            m.pairs() == self.pairs(),
            m@ == self@,
    {
        proof {
            use_type_invariant(self);
        }
        let mut entries: Vec<(String, String)> = Vec::new();
        let mut i: usize = 0;
        while i < self.entries.len()
            invariant
                i <= self.entries.len(),
                entries.len() == i,
                forall|j: int| 0 <= j < i ==> (#[trigger] entries@[j]).0@ == self.entries@[j].0@
                    && entries@[j].1@ == self.entries@[j].1@,
            decreases self.entries.len() - i,
        {
            let key = self.entries[i].0.clone();
            let value = self.entries[i].1.clone();
            entries.push((key, value));
            i += 1;
        }
        assert(pairs_of(entries@) =~= pairs_of(self.entries@));
        TextMap { entries }
    }
}

} // verus!
