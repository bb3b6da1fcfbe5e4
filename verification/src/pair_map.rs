//! A map keyed by a pair of texts, such as (maintainer, issue url), held as a
//! map from the first text to a map from the second text to the value.

use vstd::prelude::*;
use vstd::hash_map::StringHashMap;
use vstd::string::StringExecFns;

verus! {

broadcast use vstd::hash_map::group_hash_map_axioms;

/// A map from pairs of texts to values. Each first text owns one inner map,
/// found through its slot number.
#[verifier::reject_recursive_types(V)]
pub struct PairMap<V> {
    slot_of: StringHashMap<usize>,
    slots: Vec<StringHashMap<V>>,
}

impl<V> PairMap<V> {
    /// Every first text has a slot of its own.
    #[verifier::type_invariant]
    spec fn wf(&self) -> bool {
        &&& forall|a: Seq<char>| #[trigger]
            self.slot_of@.contains_key(a) ==> self.slot_of@[a] < self.slots@.len()
        &&& forall|a1: Seq<char>, a2: Seq<char>|
            #[trigger] self.slot_of@.contains_key(a1) && #[trigger] self.slot_of@.contains_key(a2)
                && a1 != a2 ==> self.slot_of@[a1] != self.slot_of@[a2]
    }

    /// The inner map owned by the first text `a`.
    spec fn inner(&self, a: Seq<char>) -> Map<Seq<char>, V> {
        self.slots@[self.slot_of@[a] as int]@
    }
}

impl<V> View for PairMap<V> {
    type V = Map<(Seq<char>, Seq<char>), V>;

    closed spec fn view(&self) -> Map<(Seq<char>, Seq<char>), V> {
        Map::new(
            |k: (Seq<char>, Seq<char>)|
                self.slot_of@.contains_key(k.0) && self.inner(k.0).contains_key(k.1),
            |k: (Seq<char>, Seq<char>)| self.inner(k.0)[k.1],
        )
    }
}

impl<V> PairMap<V> {
    pub fn new() -> (r: Self)
        ensures
            r@ == Map::<(Seq<char>, Seq<char>), V>::empty(),
    {
        let r = PairMap { slot_of: StringHashMap::new(), slots: Vec::new() };
        assert(r@ =~= Map::<(Seq<char>, Seq<char>), V>::empty());
        r
    }

    /// The value stored for `(a, b)`, if any.
    pub fn get(&self, a: &str, b: &str) -> (r: Option<&V>)
        ensures
            match r {
                Some(v) => self@.contains_key((a@, b@)) && *v == self@[(a@, b@)],
                None => !self@.contains_key((a@, b@)),
            },
    {
        proof {
            use_type_invariant(self);
        }
        match self.slot_of.get(a) {
            None => None,
            Some(i) => self.slots[*i].get(b),
        }
    }

    /// Stores `v` for `(a, b)`, replacing any earlier value.
    pub fn insert(&mut self, a: &str, b: &str, v: V)
        ensures
            final(self)@ == old(self)@.insert((a@, b@), v),
    {
        proof {
            use_type_invariant(&*self);
        }
        let mut slot_of = StringHashMap::new();
        std::mem::swap(&mut slot_of, &mut self.slot_of);
        let mut slots = Vec::new();
        std::mem::swap(&mut slots, &mut self.slots);
        let ghost old_slot_of = slot_of@;
        let ghost old_slots = slots@;
        let found: Option<usize> = match slot_of.get(a) {
            Some(i) => Some(*i),
            None => None,
        };
        match found {
            Some(i) => {
                let mut inner = StringHashMap::new();
                slots.set_and_swap(i, &mut inner);
                inner.insert(String::from_str(b), v);
                slots.set_and_swap(i, &mut inner);
                proof {
                    assert(slots@ == old_slots.update(i as int, slots@[i as int]));
                    assert(slots@[i as int]@ == old_slots[i as int]@.insert(b@, v));
                }
            },
            None => {
                let i = slots.len();
                let mut inner = StringHashMap::new();
                inner.insert(String::from_str(b), v);
                slots.push(inner);
                slot_of.insert(String::from_str(a), i);
                proof {
                    assert(slots@[i as int]@ == Map::<Seq<char>, V>::empty().insert(b@, v));
                }
            },
        }
        *self = PairMap { slot_of, slots };
        proof {
            assert forall|k: (Seq<char>, Seq<char>)|
                #![trigger self@.contains_key(k)]
                #![trigger old(self)@.contains_key(k)]
                self@.contains_key(k) == old(self)@.insert((a@, b@), v).contains_key(k) && (
                self@.contains_key(k) ==> self@[k] == old(self)@.insert((a@, b@), v)[k]) by {
                if k.0 != a@ && old_slot_of.contains_key(k.0) {
                    assert(self.slot_of@[k.0] == old_slot_of[k.0]);
                    assert(self.inner(k.0) == old(self).inner(k.0));
                }
            }
            assert(self@ =~= old(self)@.insert((a@, b@), v));
        }
    }
}

} // verus!
