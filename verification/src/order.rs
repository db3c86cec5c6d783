//! Ordered maps keyed by an hour of a year or by an hour of any year: their
//! keys in ascending order, and the reads and writes the analytics need.

use vstd::prelude::*;
use vstd::std_specs::btree::{increasing_seq, spec_keys_iter};
use vstd::std_specs::cmp::OrdSpec;
use vstd::std_specs::iter::IteratorSpec;
use std::collections::BTreeMap;

verus! {

/// Whether one hour of a year comes before another: by year, then by day of
/// the year, then by hour of the day.
pub open spec fn hour_before(a: (u32, u32, u32), b: (u32, u32, u32)) -> bool {
    a.0 < b.0 || (a.0 == b.0 && (a.1 < b.1 || (a.1 == b.1 && a.2 < b.2)))
}

/// Whether one hour of any year comes before another: by day of the year,
/// then by hour of the day.
pub open spec fn slot_before(a: (u32, u32), b: (u32, u32)) -> bool {
    a.0 < b.0 || (a.0 == b.0 && a.1 < b.1)
}

/// Whether the hours stand in strictly ascending order.
pub open spec fn ascending_hours(keys: Seq<(u32, u32, u32)>) -> bool {
    forall|i: int, j: int| 0 <= i < j < keys.len() ==> hour_before(keys[i], keys[j])
}

/// Whether the slots stand in strictly ascending order.
pub open spec fn ascending_slots(keys: Seq<(u32, u32)>) -> bool {
    forall|i: int, j: int| 0 <= i < j < keys.len() ==> slot_before(keys[i], keys[j])
}

/// The keys of the map, each once, in ascending order.
fn keys_in_order<K: Copy + Ord, V>(m: &BTreeMap<K, V>) -> (keys: Vec<K>)
    requires
        vstd::laws_cmp::obeys_cmp::<K>(),
    ensures
        increasing_seq(keys@),
        forall|k: K| m@.contains_key(k) <==> keys@.contains(k),
{
    broadcast use vstd::std_specs::btree::group_btree_axioms;

    let mut keys: Vec<K> = Vec::new();
    let ghost all = spec_keys_iter(m).remaining();
    for k in it: m.keys()
        invariant
            it.seq() == all,
            keys@.len() == it.index(),
            forall|j: int| 0 <= j < keys@.len() ==> keys@[j] == *all[j],
    {
        keys.push(*k);
    }
    proof {
        vstd::std_specs::btree::axiom_spec_keys_iter(m);
        assert(keys@ =~= all.unref());
        broadcast use vstd::laws_cmp::lemma_ref_obeys_cmp_spec;

        assert(vstd::laws_cmp::obeys_cmp::<&K>());
        vstd::std_specs::btree::axiom_increasing_seq_meaning::<&K>(all);
        vstd::std_specs::btree::axiom_increasing_seq_meaning::<K>(keys@);
        assert forall|i: int, j: int| 0 <= i < j < keys@.len() implies keys@[i].cmp_spec(&keys@[j])
            == core::cmp::Ordering::Less by {
            assert(OrdSpec::cmp_spec(&all[i], &all[j]) == core::cmp::Ordering::Less);
        }
        assert forall|k: K| m@.contains_key(k) <==> keys@.contains(k) by {
            assert(m@.dom().contains(k) <==> all.unref().to_set().contains(k));
        }
    }
    keys
}

/// The hours that the map holds, each once, in ascending order.
pub fn hour_keys<V>(m: &BTreeMap<(u32, u32, u32), V>) -> (keys: Vec<(u32, u32, u32)>)
    ensures
        ascending_hours(keys@),
        forall|k: (u32, u32, u32)| m@.contains_key(k) <==> keys@.contains(k),
{
    broadcast use vstd::laws_cmp::group_laws_cmp;

    let keys = keys_in_order(m);
    proof {
        vstd::std_specs::btree::axiom_increasing_seq_meaning::<(u32, u32, u32)>(keys@);
        assert forall|i: int, j: int| 0 <= i < j < keys@.len() implies hour_before(
            keys@[i],
            keys@[j],
        ) by {
            assert(keys@[i].cmp_spec(&keys@[j]) == core::cmp::Ordering::Less);
        }
    }
    keys
}

/// The slots that the map holds, each once, in ascending order.
pub fn slot_keys<V>(m: &BTreeMap<(u32, u32), V>) -> (keys: Vec<(u32, u32)>)
    ensures
        ascending_slots(keys@),
        forall|k: (u32, u32)| m@.contains_key(k) <==> keys@.contains(k),
{
    broadcast use vstd::laws_cmp::group_laws_cmp;

    let keys = keys_in_order(m);
    proof {
        vstd::std_specs::btree::axiom_increasing_seq_meaning::<(u32, u32)>(keys@);
        assert forall|i: int, j: int| 0 <= i < j < keys@.len() implies slot_before(
            keys@[i],
            keys@[j],
        ) by {
            assert(keys@[i].cmp_spec(&keys@[j]) == core::cmp::Ordering::Less);
        }
    }
    keys
}

/// What the map holds for an hour of a year.
pub fn hour_get<'a, V>(m: &'a BTreeMap<(u32, u32, u32), V>, key: &(u32, u32, u32)) -> (held: Option<
    &'a V,
>)
    ensures
        match held {
            Some(v) => m@.contains_key(*key) && m@[*key] == *v,
            None => !m@.contains_key(*key),
        },
{
    broadcast use vstd::laws_cmp::group_laws_cmp;
    broadcast use vstd::std_specs::btree::group_btree_axioms;

    m.get(key)
}

/// What the map holds for an hour of any year.
pub fn slot_get<'a, V>(m: &'a BTreeMap<(u32, u32), V>, key: &(u32, u32)) -> (held: Option<&'a V>)
    ensures
        match held {
            Some(v) => m@.contains_key(*key) && m@[*key] == *v,
            None => !m@.contains_key(*key),
        },
{
    broadcast use vstd::laws_cmp::group_laws_cmp;
    broadcast use vstd::std_specs::btree::group_btree_axioms;

    m.get(key)
}

/// Sets what the map holds for an hour of a year.
pub fn hour_insert<V>(m: &mut BTreeMap<(u32, u32, u32), V>, key: (u32, u32, u32), value: V)
    ensures
        final(m)@ == old(m)@.insert(key, value),
{
    broadcast use vstd::laws_cmp::group_laws_cmp;

    m.insert(key, value);
}

/// Sets what the map holds for an hour of any year.
pub fn slot_insert<V>(m: &mut BTreeMap<(u32, u32), V>, key: (u32, u32), value: V)
    ensures
        final(m)@ == old(m)@.insert(key, value),
{
    broadcast use vstd::laws_cmp::group_laws_cmp;

    m.insert(key, value);
}

/// Adds an item at the end of the list that the map holds for an hour of a
/// year, starting the list where the map holds none.
pub fn hour_append<V>(m: &mut BTreeMap<(u32, u32, u32), Vec<V>>, key: (u32, u32, u32), item: V)
    ensures
        final(m)@.dom() == old(m)@.dom().insert(key),
        final(m)@[key]@ == (if old(m)@.contains_key(key) {
            old(m)@[key]@
        } else {
            Seq::empty()
        }).push(item),
        forall|other: (u32, u32, u32)|
            other != key && old(m)@.contains_key(other) ==> final(m)@[other] == old(m)@[other],
{
    broadcast use vstd::laws_cmp::group_laws_cmp;
    broadcast use vstd::std_specs::btree::group_btree_axioms;

    let mut list = match m.remove(&key) {
        Some(held) => held,
        None => Vec::new(),
    };
    list.push(item);
    m.insert(key, list);
}

/// Adds an item at the end of the list that the map holds for an hour of
/// any year, starting the list where the map holds none.
pub fn slot_append<V>(m: &mut BTreeMap<(u32, u32), Vec<V>>, key: (u32, u32), item: V)
    ensures
        final(m)@.dom() == old(m)@.dom().insert(key),
        final(m)@[key]@ == (if old(m)@.contains_key(key) {
            old(m)@[key]@
        } else {
            Seq::empty()
        }).push(item),
        forall|other: (u32, u32)|
            other != key && old(m)@.contains_key(other) ==> final(m)@[other] == old(m)@[other],
{
    broadcast use vstd::laws_cmp::group_laws_cmp;
    broadcast use vstd::std_specs::btree::group_btree_axioms;

    let mut list = match m.remove(&key) {
        Some(held) => held,
        None => Vec::new(),
    };
    list.push(item);
    m.insert(key, list);
}

} // verus!
