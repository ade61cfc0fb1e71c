//! Stable numeric ids for items, handed out in order of first request.

use vstd::prelude::*;
use vstd::hash_map::HashMapWithView;
use vstd::std_specs::hash::obeys_key_model;
use std::hash::Hash;
use crate::text::{decimal, push_decimal, push_str, to_string};

verus! {

/// What an `IdMap` holds: the name prefix, the next id to hand out, and the
/// id of each item seen so far (by its view).
#[verifier::reject_recursive_types(K)]
pub struct IdMapState<K> {
    pub prefix: Seq<char>,
    pub next_id: nat,
    pub ids: Map<K, usize>,
}

impl<K> IdMapState<K> {
    /// The ids are `0 .. next_id`, each given to exactly one item.
    pub open spec fn wf(self) -> bool {
        &&& forall|k: K| #[trigger] self.ids.contains_key(k) ==> self.ids[k] < self.next_id
        &&& forall|k1: K, k2: K|
            #[trigger] self.ids.contains_key(k1) && #[trigger] self.ids.contains_key(k2) && k1 != k2
                ==> self.ids[k1] != self.ids[k2]
        &&& forall|i: nat| i < self.next_id ==> #[trigger] self.id_taken(i)
    }

    /// Whether some item has id `i`.
    pub open spec fn id_taken(self, i: nat) -> bool {
        exists|k: K| #[trigger] self.ids.contains_key(k) && self.ids[k] == i
    }

    /// The id of `k` after a request for it: its old id, or the next one.
    pub open spec fn id_of(self, k: K) -> usize {
        if self.ids.contains_key(k) {
            self.ids[k]
        } else {
            self.next_id as usize
        }
    }

    /// The state after a request for the id of `k`.
    pub open spec fn request(self, k: K) -> IdMapState<K> {
        if self.ids.contains_key(k) {
            self
        } else {
            IdMapState {
                prefix: self.prefix,
                next_id: self.next_id + 1,
                ids: self.ids.insert(k, self.next_id as usize),
            }
        }
    }
}

/// Whether cloning a `T` keeps its view, as a key's copy must.
pub open spec fn clone_keeps_view<T: View + Clone>() -> bool {
    forall|a: T, b: T| #[trigger] vstd::pervasive::cloned(a, b) ==> a@ == b@
}

/// Whether `T` can key an `IdMap`: its `Hash` and `Eq` follow the hash
/// table model, equal views mean equal values, and a clone has the view of
/// the value it was cloned from.
pub open spec fn key_model<T: View + Eq + Hash + Clone>() -> bool {
    &&& obeys_key_model::<T>()
    &&& forall|k1: T, k2: T| k1@ == k2@ ==> k1 == k2
    &&& clone_keeps_view::<T>()
}

/// Hands out a stable id to each distinct item: `0` to the first one asked
/// for, `1` to the next new one, and so on.
#[verifier::reject_recursive_types(T)]
pub struct IdMap<T: View + Eq + Hash + Clone> {
    prefix: &'static str,
    next_id: usize,
    id_map: HashMapWithView<T, usize>,
}

impl<T: View + Eq + Hash + Clone> View for IdMap<T> {
    type V = IdMapState<T::V>;

    closed spec fn view(&self) -> IdMapState<T::V> {
        IdMapState { prefix: self.prefix@, next_id: self.next_id as nat, ids: self.id_map@ }
    }
}

impl<T: View + Eq + Hash + Clone> IdMap<T> {
    /// An empty map whose names start with `prefix`.
    pub fn new(prefix: &'static str) -> (r: Self)
        requires
            key_model::<T>(),
        ensures
            r@ == (IdMapState::<T::V> { prefix: prefix@, next_id: 0, ids: Map::empty() }),
            r@.wf(),
    {
        IdMap { prefix, next_id: 0, id_map: HashMapWithView::new() }
    }

    /// The name of `item`: the prefix, `_` and the item's id.
    pub fn id_name(&mut self, item: &T) -> (r: String)
        requires
            old(self)@.wf(),
            key_model::<T>(),
            old(self)@.next_id < usize::MAX,
        ensures
            final(self)@ == old(self)@.request(item@),
            final(self)@.wf(),
            r@ == old(self)@.prefix + "_"@ + decimal(old(self)@.id_of(item@) as nat),
    {
        let id = self.get_id(item);
        let mut r = to_string(self.prefix);
        push_str(&mut r, "_");
        push_decimal(&mut r, id as u128);
        r
    }

    /// The id of `item`: the one it was given before, or the next free one.
    pub fn get_id(&mut self, item: &T) -> (id: usize)
        requires
            old(self)@.wf(),
            key_model::<T>(),
            old(self)@.next_id < usize::MAX,
        ensures
            id == old(self)@.id_of(item@),
            final(self)@ == old(self)@.request(item@),
            final(self)@.wf(),
    {
        match self.id_map.get(item) {
            Some(id) => *id,
            None => {
                let id = self.next_id;
                let key = item.clone();
                assert(vstd::pervasive::cloned(*item, key));
                let ghost old_state = self@;
                self.id_map.insert(key, id);
                self.next_id = self.next_id + 1;
                proof {
                    let st = self@;
                    assert forall|i: nat| i < st.next_id implies #[trigger] st.id_taken(i) by {
                        if i == old_state.next_id {
                            assert(st.ids.contains_key(item@));
                        } else {
                            assert(old_state.id_taken(i));
                            let k = choose|k: T::V| #[trigger] old_state.ids.contains_key(k) && old_state.ids[k] == i;
                            assert(st.ids.contains_key(k) && st.ids[k] == i);
                        }
                    }
                }
                id
            }
        }
    }
}

/// Ids are dense, stable and distinct: a request keeps every id in
/// `0 .. next_id` given to exactly one item; an item asked for before keeps
/// its id and changes nothing; a new item gets the next id, `next_id`; and
/// two different items never share an id.
pub proof fn lemma_ids_stable_and_distinct<K>(st: IdMapState<K>, a: K, b: K)
    requires
        st.wf(),
        st.next_id < usize::MAX,
    ensures
        st.request(a).wf(),
        st.request(a).ids.contains_key(a),
        st.request(a).ids[a] == st.id_of(a),
        st.ids.contains_key(a) ==> st.request(a) == st,
        !st.ids.contains_key(a) ==> st.id_of(a) == st.next_id && st.request(a).next_id == st.next_id + 1,
        st.ids.contains_key(b) ==> st.request(a).ids.contains_key(b) && st.request(a).ids[b] == st.ids[b],
        a != b && st.request(a).ids.contains_key(b) ==> st.request(a).ids[a] != st.request(a).ids[b],
{
    let s1 = st.request(a);
    if !st.ids.contains_key(a) {
        assert forall|i: nat| i < s1.next_id implies #[trigger] s1.id_taken(i) by {
            if i == st.next_id {
                assert(s1.ids.contains_key(a));
            } else {
                assert(st.id_taken(i));
                let k = choose|k: K| #[trigger] st.ids.contains_key(k) && st.ids[k] == i;
                assert(s1.ids.contains_key(k) && s1.ids[k] == i);
            }
        }
    }
}

} // verus!
