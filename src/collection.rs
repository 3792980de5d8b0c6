//! Collections that a single item can be gathered into.
use std::collections::{BTreeMap, BTreeSet, HashMap, HashSet};
use std::hash::Hash;
use vstd::prelude::*;
use vstd::laws_cmp::obeys_cmp;
use vstd::std_specs::hash::{builds_valid_hashers, obeys_key_model};

verus! {

/// A collection that can be built holding one given item.
pub trait SingleCollection<I>: Sized {
    /// `c` holds the item `x` and nothing else.
    spec fn holds_only(c: Self, x: I) -> bool;

    fn of_single(x: I) -> (r: Self)
        ensures
            Self::holds_only(r, x),
    ;
}

impl<I> SingleCollection<I> for Vec<I> {
    open spec fn holds_only(c: Vec<I>, x: I) -> bool {
        c@ == seq![x]
    }

    fn of_single(x: I) -> (r: Vec<I>) {
        let mut r: Vec<I> = Vec::new();
        r.push(x);
        r
    }
}

impl<K: Ord, V> SingleCollection<(K, V)> for BTreeMap<K, V> {
    /// Where the key type's ordering is lawful, the map has the one entry.
    open spec fn holds_only(c: BTreeMap<K, V>, x: (K, V)) -> bool {
        obeys_cmp::<K>() ==> c@ == map![x.0 => x.1]
    }

    fn of_single(x: (K, V)) -> (r: BTreeMap<K, V>) {
        let mut r: BTreeMap<K, V> = BTreeMap::new();
        r.insert(x.0, x.1);
        r
    }
}

impl<K: Eq + Hash, V> SingleCollection<(K, V)> for HashMap<K, V> {
    /// Where the key type's hashing is lawful, the map has the one entry.
    open spec fn holds_only(c: HashMap<K, V>, x: (K, V)) -> bool {
        obeys_key_model::<K>() && builds_valid_hashers::<std::hash::RandomState>() ==> c@ == map![x.0 => x.1]
    }

    fn of_single(x: (K, V)) -> (r: HashMap<K, V>) {
        let mut r: HashMap<K, V> = HashMap::new();
        r.insert(x.0, x.1);
        r
    }
}

impl<I: Ord> SingleCollection<I> for BTreeSet<I> {
    /// Where the item type's ordering is lawful, the set has the one item.
    open spec fn holds_only(c: BTreeSet<I>, x: I) -> bool {
        obeys_cmp::<I>() ==> c@ == set![x]
    }

    fn of_single(x: I) -> (r: BTreeSet<I>) {
        let mut r: BTreeSet<I> = BTreeSet::new();
        r.insert(x);
        r
    }
}

impl<I: Eq + Hash> SingleCollection<I> for HashSet<I> {
    /// Where the item type's hashing is lawful, the set has the one item.
    open spec fn holds_only(c: HashSet<I>, x: I) -> bool {
        obeys_key_model::<I>() && builds_valid_hashers::<std::hash::RandomState>() ==> c@ == set![x]
    }

    fn of_single(x: I) -> (r: HashSet<I>) {
        let mut r: HashSet<I> = HashSet::new();
        r.insert(x);
        r
    }
}

} // verus!
