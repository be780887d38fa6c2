//! A small string-to-string table with unique keys, the shape of the
//! backend options of a repository.
use vstd::prelude::*;

use crate::assoc::{
    keys_unique, lemma_pairs_map_finite, lemma_pairs_map_lookup, lemma_pairs_map_push,
    lemma_pairs_map_update, pairs_map,
};

verus! {

/// The view of a list of key/value pairs as plain character sequences.
pub open spec fn pairs_view(entries: Seq<(String, String)>) -> Seq<(Seq<char>, Seq<char>)> {
    entries.map_values(|p: (String, String)| (p.0@, p.1@))
}

/// A table of string options, such as the `username` and `password` handed to a
/// REST backend. No key occurs twice; the table's view is the map it denotes.
pub struct OptionTable {
    entries: Vec<(String, String)>,
}

impl View for OptionTable {
    type V = Map<Seq<char>, Seq<char>>;

    closed spec fn view(&self) -> Map<Seq<char>, Seq<char>> {
        pairs_map(pairs_view(self.entries@))
    }
}

impl OptionTable {
    #[verifier::type_invariant]
    closed spec fn unique_keys(&self) -> bool {
        keys_unique(pairs_view(self.entries@))
    }

    /// The key/value pairs of the table, in the order they were first inserted.
    pub closed spec fn pairs(&self) -> Seq<(Seq<char>, Seq<char>)> {
        pairs_view(self.entries@)
    }

    /// An empty table.
    pub fn new() -> (table: OptionTable)
        ensures
            table@ == Map::<Seq<char>, Seq<char>>::empty(),
            table.pairs().len() == 0,
    {
        let table = OptionTable { entries: Vec::new() };
        assert(pairs_view(table.entries@) =~= Seq::empty());
        table
    }

    /// The position of `key` among the entries, if it is there.
    fn position(&self, key: &String) -> (pos: Option<usize>)
        ensures
            match pos {
                Some(i) => i < self.entries@.len() && self.entries@[i as int].0@ == key@,
                None => forall|i: int|
                    0 <= i < self.entries@.len() ==> #[trigger] self.entries@[i].0@ != key@,
            },
    {
        let mut i: usize = 0;
        while i < self.entries.len()
            invariant
                i <= self.entries@.len(),
                forall|j: int| 0 <= j < i ==> #[trigger] self.entries@[j].0@ != key@,
            decreases self.entries@.len() - i,
        {
            if self.entries[i].0 == *key {
                return Some(i);
            }
            i = i + 1;
        }
        None
    }

    /// The value stored under `key`.
    pub fn get(&self, key: &String) -> (value: Option<&String>)
        ensures
            match value {
                Some(v) => self@.contains_key(key@) && self@[key@] == v@,
                None => !self@.contains_key(key@),
            },
    {
        proof {
            use_type_invariant(self);
            lemma_pairs_map_lookup(pairs_view(self.entries@), key@);
        }
        match self.position(key) {
            Some(i) => {
                assert(pairs_view(self.entries@)[i as int].0 == key@);
                Some(&self.entries[i].1)
            },
            None => {
                assert forall|j: int| 0 <= j < pairs_view(self.entries@).len() implies #[trigger] pairs_view(self.entries@)[j].0 != key@ by {
                    assert(self.entries@[j].0@ != key@);
                }
                None
            },
        }
    }

    /// Stores `value` under `key`, replacing what was there.
    pub fn insert(&mut self, key: String, value: String)
        ensures
            final(self)@ == old(self)@.insert(key@, value@),
    {
        proof {
            use_type_invariant(&*self);
        }
        let ghost old_pairs = pairs_view(self.entries@);
        let pos = self.position(&key);
        let mut entries: Vec<(String, String)> = Vec::new();
        std::mem::swap(&mut entries, &mut self.entries);
        assert(pairs_view(entries@) == old_pairs);
        match pos {
            Some(i) => {
                proof {
                    lemma_pairs_map_update(old_pairs, i as int, value@);
                }
                entries[i] = (key, value);
                assert(pairs_view(entries@) =~= old_pairs.update(
                    i as int,
                    (old_pairs[i as int].0, value@),
                ));
            },
            None => {
                proof {
                    assert forall|j: int| 0 <= j < old_pairs.len() implies #[trigger] old_pairs[j].0 != key@ by {
                        assert(entries@[j].0@ != key@);
                    }
                    lemma_pairs_map_push(old_pairs, key@, value@);
                }
                entries.push((key, value));
                assert(pairs_view(entries@) =~= old_pairs.push((key@, value@)));
            },
        }
        self.entries = entries;
    }

    /// Stores every pair of `other`, its values winning over this table's.
    pub fn extend(&mut self, other: &OptionTable)
        ensures
            final(self)@ == old(self)@.union_prefer_right(other@),
    {
        proof {
            use_type_invariant(other);
        }
        let ghost start = self@;
        let ghost theirs = pairs_view(other.entries@);
        let mut i: usize = 0;
        assert(theirs.take(0) =~= Seq::empty());
        assert(start.union_prefer_right(pairs_map(theirs.take(0))) =~= start);
        while i < other.entries.len()
            invariant
                i <= other.entries@.len(),
                theirs == pairs_view(other.entries@),
                self@ == start.union_prefer_right(pairs_map(theirs.take(i as int))),
            decreases other.entries@.len() - i,
        {
            let key = other.entries[i].0.clone();
            let value = other.entries[i].1.clone();
            let ghost before = pairs_map(theirs.take(i as int));
            self.insert(key, value);
            assert(theirs.take(i + 1).drop_last() =~= theirs.take(i as int));
            assert(theirs.take(i + 1).last() == theirs[i as int]);
            assert(self@ =~= start.union_prefer_right(pairs_map(theirs.take(i + 1))));
            i = i + 1;
        }
        assert(theirs.take(i as int) =~= theirs);
    }

    /// The number of keys in the table.
    pub fn len(&self) -> (n: usize)
        ensures
            n == self.pairs().len(),
    {
        self.entries.len()
    }

    /// The pairs of the table, for handing them on.
    pub fn entries(&self) -> (entries: &Vec<(String, String)>)
        ensures
            pairs_view(entries@) == self.pairs(),
            keys_unique(self.pairs()),
            self@ == pairs_map(self.pairs()),
            self@.dom().finite(),
    {
        proof {
            use_type_invariant(self);
            lemma_pairs_map_finite(self.pairs());
        }
        &self.entries
    }
}

} // verus!
