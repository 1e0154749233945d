//! Keyed storage for contract records: a hash map from integer keys to
//! copyable values, with its contents exposed as a `Map`.
use vstd::prelude::*;
use std::collections::HashMap;

verus! {

broadcast use vstd::std_specs::hash::group_hash_axioms;

/// Two 64-bit identifiers packed into one 128-bit key.
pub open spec fn pair(a: u64, b: u64) -> u128 {
    (a as int * 0x1_0000_0000_0000_0000 + b as int) as u128
}

/// Packs `(a, b)` into one key.
pub fn pair_key(a: u64, b: u64) -> (k: u128)
    ensures
        k == pair(a, b),
{
    (a as u128) * 0x1_0000_0000_0000_0000u128 + (b as u128)
}

/// Distinct pairs give distinct keys.
pub proof fn lemma_pair_injective(a: u64, b: u64, c: u64, d: u64)
    ensures
        pair(a, b) == pair(c, d) <==> (a == c && b == d),
{
    let k: int = 0x1_0000_0000_0000_0000;
    assert(a as int * k + b as int == c as int * k + d as int ==> a == c && b == d) by (nonlinear_arith)
        requires
            0 <= b < k,
            0 <= d < k,
            0 <= a < k,
            0 <= c < k,
            k == 0x1_0000_0000_0000_0000,
    ;
}

/// A key-value table of copyable records.
pub struct Table<V> {
    m: HashMap<u128, V>,
}

impl<V> View for Table<V> {
    type V = Map<u128, V>;

    closed spec fn view(&self) -> Map<u128, V> {
        self.m@
    }
}

impl<V> Table<V> {
    /// An empty table.
    pub fn new() -> (t: Self)
        ensures
            t@ == Map::<u128, V>::empty(),
    {
        Table { m: HashMap::new() }
    }

    /// A reference to the record under `k`, if any.
    pub fn get_ref(&self, k: u128) -> (r: Option<&V>)
        ensures
            r == (if self@.contains_key(k) { Some(&self@[k]) } else { None::<&V> }),
    {
        self.m.get(&k)
    }

    /// True if a record is stored under `k`.
    pub fn has(&self, k: u128) -> (r: bool)
        ensures
            r == self@.contains_key(k),
    {
        self.m.contains_key(&k)
    }

    /// Stores `v` under `k`, replacing any earlier record.
    pub fn set(&mut self, k: u128, v: V)
        ensures
            final(self)@ == old(self)@.insert(k, v),
    {
        self.m.insert(k, v);
    }

    /// Removes the record under `k`, if any.
    pub fn remove(&mut self, k: u128)
        ensures
            final(self)@ == old(self)@.remove(k),
    {
        self.m.remove(&k);
    }
}

impl<V: Copy> Table<V> {
    /// The record under `k`, if any.
    pub fn get(&self, k: u128) -> (r: Option<V>)
        ensures
            r == (if self@.contains_key(k) { Some(self@[k]) } else { None::<V> }),
    {
        match self.m.get(&k) {
            Some(v) => Some(*v),
            None => None,
        }
    }
}

/// The record under `k`, or `d` when there is none.
pub open spec fn get_or<V>(m: Map<u128, V>, k: u128, d: V) -> V {
    if m.contains_key(k) { m[k] } else { d }
}

} // verus!
