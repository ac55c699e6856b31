//! `FieldMap`: the key-value pairs of a context or of a log entry. Every key
//! occurs once; the pairs are kept in the order in which their keys first
//! came in, which is the order in which they are rendered.

use crate::pairs::{
    distinct, has_key, lemma_key_index, lemma_put, lemma_put_all, lemma_to_map_at,
    lemma_to_map_len, overlay, put, put_all, to_map, Pair,
};
use vstd::prelude::*;

verus! {

/// A mapping from string keys to string values that remembers the order in
/// which its keys were first inserted.
#[derive(Debug)]
pub struct FieldMap {
    items: Vec<(String, String)>,
}

/// The pairs that a slice of call-site fields stands for.
pub open spec fn pairs_of(fields: Seq<(&str, &str)>) -> Seq<Pair> {
    fields.map_values(|f: (&str, &str)| (f.0@, f.1@))
}

impl View for FieldMap {
    type V = Map<Seq<char>, Seq<char>>;

    /// The mapping itself, without the order.
    open spec fn view(&self) -> Map<Seq<char>, Seq<char>> {
        to_map(self.entries())
    }
}

impl FieldMap {
    /// The pairs in order of first insertion.
    pub closed spec fn entries(&self) -> Seq<Pair> {
        self.items@.map_values(|p: (String, String)| (p.0@, p.1@))
    }

    #[verifier::type_invariant]
    spec fn keys_occur_once(&self) -> bool {
        distinct(self.entries())
    }

    /// A mapping without pairs.
    pub fn new() -> (r: FieldMap)
        ensures
            r.entries() == Seq::<Pair>::empty(),
            r@ == Map::<Seq<char>, Seq<char>>::empty(),
            distinct(r.entries()),
    {
        let r = FieldMap { items: Vec::new() };
        assert(r.entries() =~= Seq::<Pair>::empty());
        assert(r@ =~= Map::<Seq<char>, Seq<char>>::empty());
        r
    }

    /// The number of keys. No key occurs twice among the pairs.
    pub fn len(&self) -> (n: usize)
        ensures
            n == self.entries().len(),
            n == self@.dom().len(),
            distinct(self.entries()),
    {
        proof {
            use_type_invariant(self);
            lemma_to_map_len(self.entries());
        }
        self.items.len()
    }

    /// Whether the mapping has no key.
    pub fn is_empty(&self) -> (b: bool)
        ensures
            b <==> self.entries().len() == 0,
            b <==> self@ == Map::<Seq<char>, Seq<char>>::empty(),
    {
        proof {
            use_type_invariant(self);
            lemma_to_map_len(self.entries());
            if self.entries().len() == 0 {
                assert(self@ =~= Map::<Seq<char>, Seq<char>>::empty());
            }
        }
        self.items.len() == 0
    }

    /// The position of `key` among the pairs.
    fn position(&self, key: &String) -> (at: Option<usize>)
        ensures
            match at {
                Some(i) => i < self.entries().len() && self.entries()[i as int].0 == key@,
                None => !has_key(self.entries(), key@),
            },
    {
        let mut i: usize = 0;
        while i < self.items.len()
            invariant
                i <= self.items.len(),
                forall|j: int| 0 <= j < i ==> (#[trigger] self.entries()[j]).0 != key@,
            decreases self.items.len() - i,
        {
            if self.items[i].0 == *key {
                return Some(i);
            }
            i += 1;
        }
        None
    }

    /// The value that stands under `key`.
    pub fn get(&self, key: &str) -> (r: Option<&String>)
        ensures
            match r {
                Some(v) => self@.contains_key(key@) && v@ == self@[key@],
                None => !self@.contains_key(key@),
            },
    {
        let owned = key.to_owned();
        match self.position(&owned) {
            Some(i) => {
                proof {
                    use_type_invariant(self);
                    lemma_to_map_at(self.entries(), i as int);
                }
                Some(&self.items[i].1)
            },
            None => None,
        }
    }

    /// Whether some value stands under `key`.
    pub fn contains_key(&self, key: &str) -> (b: bool)
        ensures
            b == self@.contains_key(key@),
    {
        let owned = key.to_owned();
        self.position(&owned).is_some()
    }

    /// The pair at position `i` in order of first insertion, where there is
    /// one.
    pub fn get_index(&self, i: usize) -> (r: Option<(&String, &String)>)
        ensures
            match r {
                Some((k, v)) => i < self.entries().len() && (k@, v@) == self.entries()[i as int],
                None => i >= self.entries().len(),
            },
    {
        if i < self.items.len() {
            Some((&self.items[i].0, &self.items[i].1))
        } else {
            None
        }
    }

    /// Puts `value` under `key`: a key that is present keeps its position
    /// and takes the new value, a new key goes to the end.
    pub fn insert(&mut self, key: String, value: String)
        ensures
            final(self).entries() == put(old(self).entries(), key@, value@),
            final(self)@ == old(self)@.insert(key@, value@),
            distinct(final(self).entries()),
    {
        proof {
            use_type_invariant(&*self);
            lemma_put(self.entries(), key@, value@);
        }
        let ghost before = self.entries();
        let found = self.position(&key);
        let mut items: Vec<(String, String)> = Vec::new();
        core::mem::swap(&mut self.items, &mut items);
        match found {
            Some(i) => {
                proof {
                    lemma_key_index(before, i as int);
                }
                items[i] = (key, value);
            },
            None => {
                items.push((key, value));
            },
        }
        assert(items@.map_values(|p: (String, String)| (p.0@, p.1@)) =~= put(
            before,
            key@,
            value@,
        ));
        core::mem::swap(&mut self.items, &mut items);
    }

    /// A copy of this mapping with the pairs of `more` laid over it, first
    /// to last: a key of `more` takes the value of its last pair there, a
    /// key of this mapping that `more` lacks keeps its value.
    pub fn overlaid(&self, more: &[(&str, &str)]) -> (r: FieldMap)
        ensures
            r.entries() == put_all(self.entries(), pairs_of(more@)),
            r@ == overlay(self@, pairs_of(more@)),
            distinct(r.entries()),
    {
        let ghost all = pairs_of(more@);
        let mut r = self.clone();
        let mut i: usize = 0;
        assert(all.take(0) =~= Seq::<Pair>::empty());
        while i < more.len()
            invariant
                i <= more.len(),
                all == pairs_of(more@),
                r.entries() == put_all(self.entries(), all.take(i as int)),
            decreases more.len() - i,
        {
            let (key, value) = more[i];
            proof {
                assert(all.take(i + 1).drop_last() =~= all.take(i as int));
                assert(all.take(i + 1).last() == (key@, value@));
            }
            r.insert(key.to_owned(), value.to_owned());
            i += 1;
        }
        proof {
            assert(all.take(more.len() as int) =~= all);
            use_type_invariant(self);
            lemma_put_all(self.entries(), all);
        }
        r
    }
}

impl Clone for FieldMap {
    fn clone(&self) -> (r: FieldMap)
        ensures
            r.entries() == self.entries(),
            r@ == self@,
            distinct(r.entries()),
    {
        proof {
            use_type_invariant(self);
        }
        let mut items: Vec<(String, String)> = Vec::new();
        let mut i: usize = 0;
        while i < self.items.len()
            invariant
                i <= self.items.len(),
                items@ == self.items@.take(i as int),
            decreases self.items.len() - i,
        {
            items.push((self.items[i].0.clone(), self.items[i].1.clone()));
            assert(items@ =~= self.items@.take(i + 1));
            i += 1;
        }
        assert(items@ =~= self.items@);
        FieldMap { items }
    }
}

} // verus!
