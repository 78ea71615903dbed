//! Allocation quantities grouped by (warehouse, SKU) key.

use vstd::prelude::*;
use crate::foundation::{DomainResult, Nat, Quantity, ValidationError, checked_add, lemma_sum_nat_prefix_le, lemma_sum_nat_take_all, lemma_sum_nat_take_step, sum_nat, total_result};
use crate::inventory::{Allocation, allocation_key, allocation_key_spec, allocations_total_value};

verus! {

use std::collections::BTreeMap;

pub type AllocationKey = (Nat, Nat);

pub fn allocation_key_for_total(allocation: &Allocation) -> (r: AllocationKey)
    ensures
        r == allocation_key_spec(*allocation),
{
    allocation_key(allocation)
}

/// Lexicographic order on keys: warehouse first, then SKU.
pub open spec fn key_lt(a: (u128, u128), b: (u128, u128)) -> bool {
    a.0 < b.0 || (a.0 == b.0 && a.1 < b.1)
}

/// Some allocation draws from `key`.
pub open spec fn key_in_allocations(allocations: Seq<Allocation>, key: (u128, u128)) -> bool {
    exists|i: int| 0 <= i < allocations.len() && allocation_key_spec(allocations[i]) == key
}

/// The keys the allocations draw from, each once, in increasing order.
pub fn allocation_key_support(allocations: &[Allocation]) -> (r: Vec<AllocationKey>)
    ensures
        forall|i: int, j: int| 0 <= i < j < r@.len() ==> key_lt(r@[i], r@[j]),
        forall|k: (u128, u128)| r@.contains(k) <==> key_in_allocations(allocations@, k),
        r@.no_duplicates(),
{
    let mut keys: Vec<AllocationKey> = Vec::new();
    let mut i: usize = 0;
    while i < allocations.len()
        invariant
            i <= allocations.len(),
            forall|a: int, b: int| 0 <= a < b < keys@.len() ==> key_lt(keys@[a], keys@[b]),
            forall|k: (u128, u128)| keys@.contains(k) <==> key_in_allocations(allocations@.take(i as int), k),
        decreases allocations.len() - i,
    {
        let key = allocation_key_for_total(&allocations[i]);
        let mut p: usize = 0;
        while p < keys.len() && key_lt_exec(keys[p], key)
            invariant
                p <= keys.len(),
                forall|a: int| 0 <= a < p ==> key_lt(keys@[a], key),
            decreases keys.len() - p,
        {
            p += 1;
        }
        let ghost before = keys@;
        if p < keys.len() && keys[p].0 == key.0 && keys[p].1 == key.1 {
        } else {
            keys.insert(p, key);
            proof {
                assert forall|a: int, b: int| 0 <= a < b < keys@.len() implies key_lt(keys@[a], keys@[b]) by {
                    if b == p {
                        assert(key_lt(before[a], key));
                    } else if a == p {
                        assert(!key_lt(before[p as int], key));
                        assert(before[p as int] != key);
                        if b - 1 > p {
                            assert(key_lt(before[p as int], before[b - 1]));
                        }
                    } else if a < p && b > p {
                        assert(key_lt(before[a], before[b - 1]));
                    }
                }
            }
        }
        proof {
            let t = allocations@.take(i as int + 1);
            assert forall|k: (u128, u128)| keys@.contains(k) <==> key_in_allocations(t, k) by {
                if key_in_allocations(t, k) {
                    let w = choose|w: int| 0 <= w < t.len() && allocation_key_spec(t[w]) == k;
                    if w < i {
                        assert(allocations@.take(i as int)[w] == t[w]);
                        assert(before.contains(k));
                        let x = choose|x: int| 0 <= x < before.len() && before[x] == k;
                        if keys@.len() == before.len() {
                            assert(keys@[x] == k);
                        } else if x < p {
                            assert(keys@[x] == k);
                        } else {
                            assert(keys@[x + 1] == k);
                        }
                    } else {
                        assert(k == key);
                        if keys@.len() == before.len() {
                            assert(keys@[p as int] == key);
                        } else {
                            assert(keys@[p as int] == key);
                        }
                    }
                }
                if keys@.contains(k) {
                    let x = choose|x: int| 0 <= x < keys@.len() && keys@[x] == k;
                    if k == key {
                        assert(t[i as int] == allocations@[i as int]);
                    } else {
                        if keys@.len() == before.len() {
                            assert(before[x] == k);
                        } else if x < p {
                            assert(before[x] == k);
                        } else {
                            assert(before[x - 1] == k);
                        }
                        assert(before.contains(k));
                        let w = choose|w: int| 0 <= w < i && allocation_key_spec(allocations@.take(i as int)[w]) == k;
                        assert(t[w] == allocations@.take(i as int)[w]);
                    }
                }
            }
        }
        i += 1;
    }
    proof {
        assert(allocations@.take(allocations.len() as int) =~= allocations@);
        assert forall|a: int, b: int| 0 <= a < keys@.len() && 0 <= b < keys@.len() && a != b implies keys@[a] != keys@[b] by {
            if a < b {
                assert(key_lt(keys@[a], keys@[b]));
            } else {
                assert(key_lt(keys@[b], keys@[a]));
            }
        }
    }
    keys
}

fn key_lt_exec(a: AllocationKey, b: AllocationKey) -> (r: bool)
    ensures
        r == key_lt(a, b),
{
    a.0 < b.0 || (a.0 == b.0 && a.1 < b.1)
}

/// The quantity an allocation contributes to `key`'s total.
pub open spec fn key_quantity_value(key: (u128, u128)) -> spec_fn(Allocation) -> nat {
    |a: Allocation| if allocation_key_spec(a) == key { a.spec_quantity() as nat } else { 0 }
}

/// Sum of the quantities of the allocations drawing from `key`.
pub fn allocation_quantity_for_key(allocations: &[Allocation], key: AllocationKey) -> (r: DomainResult<Quantity>)
    ensures
        r == total_result(sum_nat(allocations@, key_quantity_value(key)) as int, "allocation_quantity_for_key"),
{
    let mut acc: Quantity = 0;
    let mut i: usize = 0;
    while i < allocations.len()
        invariant
            i <= allocations.len(),
            acc == sum_nat(allocations@.take(i as int), key_quantity_value(key)),
        decreases allocations.len() - i,
    {
        proof {
            lemma_sum_nat_take_step(allocations@, key_quantity_value(key), i as int);
        }
        let k = allocation_key_for_total(&allocations[i]);
        let item: Quantity = if k.0 == key.0 && k.1 == key.1 { allocations[i].quantity } else { 0 };
        match acc.checked_add(item) {
            Some(v) => {
                acc = v;
            },
            None => {
                proof {
                    lemma_sum_nat_prefix_le(allocations@, key_quantity_value(key), i + 1);
                }
                return Err(ValidationError::Overflow("allocation_quantity_for_key"));
            },
        }
        i += 1;
    }
    proof {
        lemma_sum_nat_take_all(allocations@, key_quantity_value(key));
    }
    Ok(acc)
}

proof fn lemma_absent_key_sums_to_zero(s: Seq<Allocation>, key: (u128, u128))
    requires
        !key_in_allocations(s, key),
    ensures
        sum_nat(s, key_quantity_value(key)) == 0,
    decreases s.len(),
{
    if s.len() > 0 {
        let p = s.drop_last();
        assert(!key_in_allocations(p, key)) by {
            if key_in_allocations(p, key) {
                let w = choose|w: int| 0 <= w < p.len() && allocation_key_spec(p[w]) == key;
                assert(s[w] == p[w]);
            }
        }
        lemma_absent_key_sums_to_zero(p, key);
        assert(allocation_key_spec(s[s.len() - 1]) != key);
    }
}

/// Keys compare as tuples of integers, so a map keyed by them behaves as a map.
proof fn lemma_allocation_keys_are_ordered()
    ensures
        vstd::laws_cmp::obeys_cmp::<(u128, u128)>(),
{
    broadcast use vstd::laws_cmp::group_laws_cmp;
}

/// The total quantity per key, for every key some allocation draws from; an
/// overflow error exactly when some key's total leaves `u128`.
pub fn allocation_quantity_by_key(allocations: &[Allocation]) -> (r: DomainResult<BTreeMap<AllocationKey, Quantity>>)
    ensures
        match r {
            Ok(m) => (forall|k: (u128, u128)| #[trigger] m@.contains_key(k) <==> key_in_allocations(allocations@, k))
                && (forall|k: (u128, u128)| #[trigger] m@.contains_key(k) ==> m@[k] == sum_nat(allocations@, key_quantity_value(k))),
            Err(e) => e == ValidationError::Overflow("allocation_quantity_by_key")
                && exists|k: (u128, u128)| sum_nat(allocations@, #[trigger] key_quantity_value(k)) > u128::MAX,
        },
        (forall|k: (u128, u128)| sum_nat(allocations@, #[trigger] key_quantity_value(k)) <= u128::MAX) ==> r is Ok,
{
    broadcast use vstd::std_specs::btree::group_btree_axioms;
    proof {
        lemma_allocation_keys_are_ordered();
    }
    let mut totals: BTreeMap<AllocationKey, Quantity> = BTreeMap::new();
    let mut i: usize = 0;
    while i < allocations.len()
        invariant
            i <= allocations.len(),
            forall|k: (u128, u128)| #[trigger] totals@.contains_key(k) <==> key_in_allocations(allocations@.take(i as int), k),
            forall|k: (u128, u128)| #[trigger] totals@.contains_key(k) ==> totals@[k] == sum_nat(allocations@.take(i as int), key_quantity_value(k)),
        decreases allocations.len() - i,
    {
        let key = allocation_key_for_total(&allocations[i]);
        let ghost t = allocations@.take(i as int);
        let ghost t1 = allocations@.take(i as int + 1);
        proof {
            lemma_sum_nat_take_step(allocations@, key_quantity_value(key), i as int);
        }
        let current: Quantity = match totals.get(&key) {
            Some(v) => *v,
            None => {
                proof {
                    lemma_absent_key_sums_to_zero(t, key);
                }
                0
            },
        };
        let q = allocations[i].quantity;
        match current.checked_add(q) {
            None => {
                proof {
                    lemma_sum_nat_prefix_le(allocations@, key_quantity_value(key), i + 1);
                }
                return Err(ValidationError::Overflow("allocation_quantity_by_key"));
            },
            Some(v) => {
                let ghost old_map = totals@;
                totals.insert(key, v);
                proof {
                    assert forall|k: (u128, u128)| #[trigger] totals@.contains_key(k) <==> key_in_allocations(t1, k) by {
                        if key_in_allocations(t, k) {
                            let w = choose|w: int| 0 <= w < t.len() && allocation_key_spec(t[w]) == k;
                            assert(t1[w] == t[w]);
                        }
                        if key_in_allocations(t1, k) && k != key {
                            let w = choose|w: int| 0 <= w < t1.len() && allocation_key_spec(t1[w]) == k;
                            assert(w < i);
                            assert(t1[w] == t[w]);
                        }
                        assert(t1[i as int] == allocations@[i as int]);
                    }
                    assert forall|k: (u128, u128)| #[trigger] totals@.contains_key(k) implies totals@[k] == sum_nat(t1, key_quantity_value(k)) by {
                        lemma_sum_nat_take_step(allocations@, key_quantity_value(k), i as int);
                        if k != key {
                            assert(old_map.contains_key(k));
                        }
                    }
                }
            },
        }
        i += 1;
    }
    proof {
        assert(allocations@.take(allocations.len() as int) =~= allocations@);
    }
    Ok(totals)
}

/// The per-key total of `allocations`, as a function of the key.
pub open spec fn per_key_total(allocations: Seq<Allocation>) -> spec_fn((u128, u128)) -> nat {
    |k: (u128, u128)| sum_nat(allocations, key_quantity_value(k))
}

proof fn lemma_sum_nat_of_zeros<T>(s: Seq<T>, f: spec_fn(T) -> nat)
    requires
        forall|i: int| 0 <= i < s.len() ==> f(#[trigger] s[i]) == 0,
    ensures
        sum_nat(s, f) == 0,
    decreases s.len(),
{
    if s.len() > 0 {
        let p = s.drop_last();
        assert forall|i: int| 0 <= i < p.len() implies f(#[trigger] p[i]) == 0 by {
            assert(p[i] == s[i]);
        }
        lemma_sum_nat_of_zeros(p, f);
        assert(f(s[s.len() - 1]) == 0);
    }
}

proof fn lemma_sum_nat_of_sum<T>(s: Seq<T>, f: spec_fn(T) -> nat, g: spec_fn(T) -> nat, h: spec_fn(T) -> nat)
    requires
        forall|x: T| #[trigger] h(x) == f(x) + g(x),
    ensures
        sum_nat(s, h) == sum_nat(s, f) + sum_nat(s, g),
    decreases s.len(),
{
    if s.len() > 0 {
        lemma_sum_nat_of_sum(s.drop_last(), f, g, h);
        assert(h(s.last()) == f(s.last()) + g(s.last()));
    }
}

/// Over distinct keys, exactly the key of `a` picks up its quantity.
proof fn lemma_single_key_picks_quantity(keys: Seq<(u128, u128)>, a: Allocation, g: spec_fn((u128, u128)) -> nat)
    requires
        keys.no_duplicates(),
        keys.contains(allocation_key_spec(a)),
        forall|k: (u128, u128)| #[trigger] g(k) == key_quantity_value(k)(a),
    ensures
        sum_nat(keys, g) == a.quantity,
    decreases keys.len(),
{
    let p = keys.drop_last();
    let last = keys.last();
    assert(p.no_duplicates()) by {
        assert forall|i: int, j: int| 0 <= i < p.len() && 0 <= j < p.len() && i != j implies p[i] != p[j] by {
            assert(p[i] == keys[i] && p[j] == keys[j]);
        }
    }
    if last == allocation_key_spec(a) {
        assert forall|i: int| 0 <= i < p.len() implies g(#[trigger] p[i]) == 0 by {
            assert(p[i] == keys[i]);
            assert(keys[i] != keys[keys.len() - 1]);
        }
        lemma_sum_nat_of_zeros(p, g);
    } else {
        assert(p.contains(allocation_key_spec(a))) by {
            let w = choose|w: int| 0 <= w < keys.len() && keys[w] == allocation_key_spec(a);
            assert(w != keys.len() - 1);
            assert(p[w] == keys[w]);
        }
        lemma_single_key_picks_quantity(p, a, g);
    }
}

proof fn lemma_key_totals_cover(allocations: Seq<Allocation>, keys: Seq<(u128, u128)>)
    requires
        keys.no_duplicates(),
        forall|i: int| 0 <= i < allocations.len() ==> keys.contains(allocation_key_spec(#[trigger] allocations[i])),
    ensures
        sum_nat(keys, per_key_total(allocations)) == sum_nat(allocations, allocations_total_value()),
    decreases allocations.len(),
{
    if allocations.len() == 0 {
        assert forall|i: int| 0 <= i < keys.len() implies per_key_total(allocations)(#[trigger] keys[i]) == 0 by {}
        lemma_sum_nat_of_zeros(keys, per_key_total(allocations));
    } else {
        let p = allocations.drop_last();
        let a = allocations.last();
        assert forall|i: int| 0 <= i < p.len() implies keys.contains(allocation_key_spec(#[trigger] p[i])) by {
            assert(p[i] == allocations[i]);
        }
        lemma_key_totals_cover(p, keys);
        let g = |k: (u128, u128)| key_quantity_value(k)(a);
        lemma_sum_nat_of_sum(keys, per_key_total(p), g, per_key_total(allocations));
        assert(keys.contains(allocation_key_spec(allocations[allocations.len() - 1])));
        lemma_single_key_picks_quantity(keys, a, g);
    }
}

/// Grouping by key loses and double-counts nothing: summing the per-key
/// totals over the keys the allocations draw from, each taken once (as
/// `allocation_key_support` returns them, and as the domain of
/// `allocation_quantity_by_key` holds them), gives the total quantity of
/// all allocations (what `allocations_total` sums).
pub proof fn lemma_key_totals_sum_to_overall_total(allocations: Seq<Allocation>, keys: Seq<(u128, u128)>)
    requires
        keys.no_duplicates(),
        forall|k: (u128, u128)| keys.contains(k) <==> key_in_allocations(allocations, k),
    ensures
        sum_nat(keys, per_key_total(allocations)) == sum_nat(allocations, allocations_total_value()),
{
    assert forall|i: int| 0 <= i < allocations.len() implies keys.contains(allocation_key_spec(#[trigger] allocations[i])) by {
        assert(key_in_allocations(allocations, allocation_key_spec(allocations[i])));
    }
    lemma_key_totals_cover(allocations, keys);
}

} // verus!
