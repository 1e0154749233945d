//! Values shared by the contract modules: token movements that a contract
//! call asks its host to perform, and id lists kept without repeats.
use vstd::prelude::*;

verus! {

/// A movement of `amount` units of `token` from `from` to `to`, which the
/// host performs through the token contract once the call has succeeded.
#[derive(Clone, Copy, Debug, PartialEq, Eq)]
pub struct Transfer {
    pub token: u64,
    pub from: u64,
    pub to: u64,
    pub amount: i128,
}

/// Lists of ids by key, without repeats, in insertion order.
pub struct IdLists {
    /// `(key, id)` in insertion order.
    pub log: Vec<(u128, u64)>,
}

/// `s` without the occurrences of `id`.
pub open spec fn without(s: Seq<u64>, id: u64) -> Seq<u64>
    decreases s.len(),
{
    if s.len() == 0 {
        s
    } else {
        let rest = without(s.drop_last(), id);
        if s.last() != id { rest.push(s.last()) } else { rest }
    }
}

/// The ids listed under `key`, in order.
pub open spec fn ids_under(log: Seq<(u128, u64)>, key: u128) -> Seq<u64>
    decreases log.len(),
{
    if log.len() == 0 {
        Seq::empty()
    } else {
        let rest = ids_under(log.drop_last(), key);
        if log.last().0 == key { rest.push(log.last().1) } else { rest }
    }
}

impl IdLists {
    /// No lists.
    pub fn new() -> (l: IdLists)
        ensures
            l.log@.len() == 0,
    {
        IdLists { log: Vec::new() }
    }

    /// Adds `id` under `key` unless it is already there.
    pub fn add(&mut self, key: u128, id: u64)
        ensures
            final(self).log@ == if old(self).log@.contains((key, id)) {
                old(self).log@
            } else {
                old(self).log@.push((key, id))
            },
    {
        let mut i: usize = 0;
        while i < self.log.len()
            invariant
                i <= self.log@.len(),
                self.log@ == old(self).log@,
                forall|k: int| 0 <= k < i ==> self.log@[k] != (key, id),
            decreases self.log@.len() - i,
        {
            if self.log[i].0 == key && self.log[i].1 == id {
                assert(self.log@[i as int] == (key, id));
                return;
            }
            i = i + 1;
        }
        self.log.push((key, id));
    }

    /// Removes `id` from under `key`.
    pub fn remove(&mut self, key: u128, id: u64)
        ensures
            final(self).log@ == without_entry(old(self).log@, (key, id)),
    {
        let ghost s = self.log@;
        let mut remaining: Vec<(u128, u64)> = Vec::new();
        let mut i: usize = 0;
        while i < self.log.len()
            invariant
                i <= s.len(),
                self.log@ == s,
                remaining@ == without_entry(s.take(i as int), (key, id)),
            decreases s.len() - i,
        {
            proof {
                assert(s.take(i + 1).drop_last() == s.take(i as int));
            }
            let e = self.log[i];
            if !(e.0 == key && e.1 == id) {
                remaining.push(e);
            }
            i = i + 1;
        }
        proof {
            assert(s.take(s.len() as int) == s);
        }
        self.log = remaining;
    }

    /// The ids under `key`, in order.
    pub fn get(&self, key: u128) -> (r: Vec<u64>)
        ensures
            r@ == ids_under(self.log@, key),
    {
        let mut r: Vec<u64> = Vec::new();
        let mut i: usize = 0;
        while i < self.log.len()
            invariant
                i <= self.log@.len(),
                r@ == ids_under(self.log@.take(i as int), key),
            decreases self.log@.len() - i,
        {
            proof {
                assert(self.log@.take(i + 1).drop_last() == self.log@.take(i as int));
            }
            if self.log[i].0 == key {
                r.push(self.log[i].1);
            }
            i = i + 1;
        }
        proof {
            assert(self.log@.take(self.log@.len() as int) == self.log@);
        }
        r
    }
}

/// `log` without the entries equal to `e`.
pub open spec fn without_entry(log: Seq<(u128, u64)>, e: (u128, u64)) -> Seq<(u128, u64)>
    decreases log.len(),
{
    if log.len() == 0 {
        log
    } else {
        let rest = without_entry(log.drop_last(), e);
        if log.last() != e { rest.push(log.last()) } else { rest }
    }
}

/// Appends `id` to `v` unless it is already there.
pub fn push_unique(v: &mut Vec<u64>, id: u64)
    ensures
        final(v)@ == if old(v)@.contains(id) { old(v)@ } else { old(v)@.push(id) },
{
    let mut i: usize = 0;
    while i < v.len()
        invariant
            i <= v@.len(),
            v@ == old(v)@,
            forall|k: int| 0 <= k < i ==> v@[k] != id,
        decreases v@.len() - i,
    {
        if v[i] == id {
            assert(v@[i as int] == id);
            return;
        }
        i = i + 1;
    }
    v.push(id);
}

/// Removes every occurrence of `id` from `v`.
pub fn remove_id(v: &mut Vec<u64>, id: u64)
    ensures
        final(v)@ == without(old(v)@, id),
{
    let ghost s = v@;
    let mut remaining: Vec<u64> = Vec::new();
    let mut i: usize = 0;
    while i < v.len()
        invariant
            i <= s.len(),
            v@ == s,
            remaining@ == without(s.take(i as int), id),
        decreases s.len() - i,
    {
        proof {
            assert(s.take(i + 1).drop_last() == s.take(i as int));
        }
        let x = v[i];
        if x != id {
            remaining.push(x);
        }
        i = i + 1;
    }
    proof {
        assert(s.take(s.len() as int) == s);
    }
    *v = remaining;
}

} // verus!
