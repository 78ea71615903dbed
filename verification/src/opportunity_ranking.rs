//! Ranking dropship opportunities by expected profit with a merge sort that
//! counts its comparisons.

use vstd::prelude::*;
use crate::event_replay::{Timed};
use crate::foundation::{Money, Nat};
use crate::opportunity_portfolio::{DropshipOpportunityCandidate};

verus! {

pub type OpportunityRankKey = Money;

pub fn opportunity_rank_key(candidate: &DropshipOpportunityCandidate) -> (r: OpportunityRankKey)
    ensures
        r == candidate.spec_expected_profit(),
{
    candidate.expected_profit()
}

pub open spec fn rank_keys_spec(candidates: Seq<DropshipOpportunityCandidate>) -> Seq<u128> {
    candidates.map_values(|c: DropshipOpportunityCandidate| c.spec_expected_profit())
}

pub fn opportunity_rank_keys(candidates: &[DropshipOpportunityCandidate]) -> (r: Vec<OpportunityRankKey>)
    ensures
        r@ == rank_keys_spec(candidates@),
{
    let mut keys: Vec<OpportunityRankKey> = Vec::new();
    let mut i: usize = 0;
    while i < candidates.len()
        invariant
            i <= candidates.len(),
            keys@ == rank_keys_spec(candidates@.take(i as int)),
        decreases candidates.len() - i,
    {
        keys.push(opportunity_rank_key(&candidates[i]));
        proof {
            assert(rank_keys_spec(candidates@.take(i as int + 1)) =~= rank_keys_spec(candidates@.take(i as int)).push(candidates@[i as int].expected_profit));
        }
        i += 1;
    }
    proof {
        assert(candidates@.take(candidates.len() as int) =~= candidates@);
    }
    keys
}

pub open spec fn keys_sorted(s: Seq<u128>) -> bool {
    forall|i: int, j: int| 0 <= i < j < s.len() ==> s[i] <= s[j]
}

/// Merging two runs: the merged run and the number of comparisons made, one
/// for each element placed while both runs still had elements.
pub open spec fn merge_count(l: Seq<u128>, r: Seq<u128>) -> (Seq<u128>, nat)
    decreases l.len() + r.len(),
{
    if l.len() == 0 {
        (r, 0)
    } else if r.len() == 0 {
        (l, 0)
    } else if l[0] <= r[0] {
        let rest = merge_count(l.drop_first(), r);
        (seq![l[0]] + rest.0, rest.1 + 1)
    } else {
        let rest = merge_count(l, r.drop_first());
        (seq![r[0]] + rest.0, rest.1 + 1)
    }
}

/// Top-down merge sort on the two halves split at `len / 2`: the sorted
/// sequence and the comparisons made in all merges.
pub open spec fn merge_sort_count_spec(s: Seq<u128>) -> (Seq<u128>, nat)
    decreases s.len(),
{
    if s.len() <= 1 {
        (s, 0)
    } else {
        let mid = s.len() / 2;
        let left = merge_sort_count_spec(s.take(mid as int));
        let right = merge_sort_count_spec(s.skip(mid as int));
        let merged = merge_count(left.0, right.0);
        (merged.0, left.1 + right.1 + merged.1)
    }
}

pub open spec fn all_at_least(s: Seq<u128>, b: u128) -> bool {
    forall|i: int| 0 <= i < s.len() ==> b <= #[trigger] s[i]
}

proof fn lemma_merge_lower_bound(l: Seq<u128>, r: Seq<u128>, b: u128)
    requires
        all_at_least(l, b),
        all_at_least(r, b),
    ensures
        all_at_least(merge_count(l, r).0, b),
    decreases l.len() + r.len(),
{
    if l.len() > 0 && r.len() > 0 {
        if l[0] <= r[0] {
            let t = l.drop_first();
            assert forall|i: int| 0 <= i < t.len() implies b <= #[trigger] t[i] by {
                assert(t[i] == l[i + 1]);
            }
            lemma_merge_lower_bound(t, r, b);
            let m = merge_count(l, r).0;
            assert forall|i: int| 0 <= i < m.len() implies b <= #[trigger] m[i] by {
                if i > 0 {
                    assert(m[i] == merge_count(t, r).0[i - 1]);
                }
            }
        } else {
            let t = r.drop_first();
            assert forall|i: int| 0 <= i < t.len() implies b <= #[trigger] t[i] by {
                assert(t[i] == r[i + 1]);
            }
            lemma_merge_lower_bound(l, t, b);
            let m = merge_count(l, r).0;
            assert forall|i: int| 0 <= i < m.len() implies b <= #[trigger] m[i] by {
                if i > 0 {
                    assert(m[i] == merge_count(l, t).0[i - 1]);
                }
            }
        }
    }
}

proof fn lemma_merge_facts(l: Seq<u128>, r: Seq<u128>)
    ensures
        merge_count(l, r).0.len() == l.len() + r.len(),
        merge_count(l, r).1 <= l.len() + r.len(),
        l.len() > 0 && r.len() > 0 ==> merge_count(l, r).1 + 1 <= l.len() + r.len(),
        merge_count(l, r).0.to_multiset() == l.to_multiset().add(r.to_multiset()),
        keys_sorted(l) && keys_sorted(r) ==> keys_sorted(merge_count(l, r).0),
    decreases l.len() + r.len(),
{
    broadcast use vstd::seq_lib::group_to_multiset_ensures;
    broadcast use vstd::multiset::group_multiset_axioms;
    broadcast use vstd::seq_lib::lemma_multiset_commutative;
    if l.len() == 0 {
        assert(l.to_multiset() =~= vstd::multiset::Multiset::<u128>::empty());
        assert(l.to_multiset().add(r.to_multiset()) =~= r.to_multiset());
    } else if r.len() == 0 {
        assert(r.to_multiset() =~= vstd::multiset::Multiset::<u128>::empty());
        assert(l.to_multiset().add(r.to_multiset()) =~= l.to_multiset());
    } else if l[0] <= r[0] {
        let t = l.drop_first();
        lemma_merge_facts(t, r);
        let rest = merge_count(t, r).0;
        assert(l =~= seq![l[0]] + t);
        assert((seq![l[0]] + rest).to_multiset() =~= seq![l[0]].to_multiset().add(rest.to_multiset()));
        assert((seq![l[0]] + t).to_multiset() =~= seq![l[0]].to_multiset().add(t.to_multiset()));
        assert(merge_count(l, r).0.to_multiset() =~= l.to_multiset().add(r.to_multiset()));
        if keys_sorted(l) && keys_sorted(r) {
            assert(keys_sorted(t)) by {
                assert forall|i: int, j: int| 0 <= i < j < t.len() implies t[i] <= t[j] by {
                    assert(t[i] == l[i + 1] && t[j] == l[j + 1]);
                }
            }
            assert forall|i: int| 0 <= i < t.len() implies l[0] <= #[trigger] t[i] by {
                assert(t[i] == l[i + 1]);
            }
            assert forall|i: int| 0 <= i < r.len() implies l[0] <= #[trigger] r[i] by {
                assert(r[0] <= r[i]);
            }
            lemma_merge_lower_bound(t, r, l[0]);
            let m = merge_count(l, r).0;
            assert forall|i: int, j: int| 0 <= i < j < m.len() implies m[i] <= m[j] by {
                assert(m[j] == rest[j - 1]);
                if i > 0 {
                    assert(m[i] == rest[i - 1]);
                } else {
                    assert(l[0] <= rest[j - 1]);
                }
            }
        }
    } else {
        let t = r.drop_first();
        lemma_merge_facts(l, t);
        let rest = merge_count(l, t).0;
        assert(r =~= seq![r[0]] + t);
        assert((seq![r[0]] + rest).to_multiset() =~= seq![r[0]].to_multiset().add(rest.to_multiset()));
        assert((seq![r[0]] + t).to_multiset() =~= seq![r[0]].to_multiset().add(t.to_multiset()));
        assert(merge_count(l, r).0.to_multiset() =~= l.to_multiset().add(r.to_multiset()));
        if keys_sorted(l) && keys_sorted(r) {
            assert(keys_sorted(t)) by {
                assert forall|i: int, j: int| 0 <= i < j < t.len() implies t[i] <= t[j] by {
                    assert(t[i] == r[i + 1] && t[j] == r[j + 1]);
                }
            }
            assert forall|i: int| 0 <= i < t.len() implies r[0] <= #[trigger] t[i] by {
                assert(t[i] == r[i + 1]);
            }
            assert forall|i: int| 0 <= i < l.len() implies r[0] <= #[trigger] l[i] by {
                assert(l[0] <= l[i]);
            }
            lemma_merge_lower_bound(l, t, r[0]);
            let m = merge_count(l, r).0;
            assert forall|i: int, j: int| 0 <= i < j < m.len() implies m[i] <= m[j] by {
                assert(m[j] == rest[j - 1]);
                if i > 0 {
                    assert(m[i] == rest[i - 1]);
                } else {
                    assert(r[0] <= rest[j - 1]);
                }
            }
        }
    }
}

/// The number of halvings (rounding up) that bring `n` down to one: the
/// ceiling of `log2(n)`, and zero for `n <= 1`.
pub open spec fn ceil_log2(n: nat) -> nat
    decreases n,
{
    if n <= 1 {
        0
    } else {
        1 + ceil_log2(((n + 1) / 2) as nat)
    }
}

proof fn lemma_ceil_log2_monotone(a: nat, b: nat)
    requires
        a <= b,
    ensures
        ceil_log2(a) <= ceil_log2(b),
    decreases b,
{
    if a > 1 {
        lemma_ceil_log2_monotone(((a + 1) / 2) as nat, ((b + 1) / 2) as nat);
    }
}

/// The merge sort returns a sorted rearrangement of its input, and makes at
/// most `n * (n - 1) / 2` comparisons on `n` keys (so at most `n * n`), and at
/// most `n * ceil(log2(n))`.
pub proof fn lemma_merge_sort_sorts(s: Seq<u128>)
    ensures
        keys_sorted(merge_sort_count_spec(s).0),
        merge_sort_count_spec(s).0.to_multiset() == s.to_multiset(),
        merge_sort_count_spec(s).0.len() == s.len(),
        merge_sort_count_spec(s).1 <= s.len() * s.len(),
        2 * merge_sort_count_spec(s).1 <= s.len() * (s.len() - 1),
        merge_sort_count_spec(s).1 <= s.len() * ceil_log2(s.len()),
    decreases s.len(),
{
    broadcast use vstd::seq_lib::lemma_multiset_commutative;
    if s.len() > 1 {
        let mid = s.len() / 2;
        let a = s.take(mid as int);
        let b = s.skip(mid as int);
        lemma_merge_sort_sorts(a);
        lemma_merge_sort_sorts(b);
        lemma_merge_facts(merge_sort_count_spec(a).0, merge_sort_count_spec(b).0);
        assert(a + b =~= s);
        assert((a + b).to_multiset() =~= a.to_multiset().add(b.to_multiset()));
        let x = a.len();
        let y = b.len();
        assert(x * x + y * y + x + y <= (x + y) * (x + y)) by (nonlinear_arith)
            requires
                x >= 1,
                y >= 1,
        ;
        assert(x * (x - 1) + y * (y - 1) + 2 * (x + y - 1) <= (x + y) * (x + y - 1)) by (nonlinear_arith)
            requires
                x >= 1,
                y >= 1,
        ;
        assert(merge_count(merge_sort_count_spec(a).0, merge_sort_count_spec(b).0).1 + 1 <= x + y);
        assert(s.len() == x + y);
        let lx = ceil_log2(x);
        let ly = ceil_log2(y);
        lemma_ceil_log2_monotone(x, y);
        assert(y == (s.len() + 1) / 2);
        assert(ceil_log2(s.len()) == 1 + ly);
        let cx = merge_sort_count_spec(a).1;
        let cy = merge_sort_count_spec(b).1;
        assert(cx + cy + (x + y) <= (x + y) * (1 + ly)) by (nonlinear_arith)
            requires
                cx <= x * lx,
                cy <= y * ly,
                lx <= ly,
        ;
    } else {
        assert(s.len() * (s.len() - 1) == 0) by (nonlinear_arith)
            requires
                s.len() <= 1,
        ;
    }
}

fn merge_runs(left: Vec<OpportunityRankKey>, right: Vec<OpportunityRankKey>) -> (r: (Vec<OpportunityRankKey>, Nat))
    requires
        left.len() + right.len() <= usize::MAX,
    ensures
        r.0@ == merge_count(left@, right@).0,
        r.1 == merge_count(left@, right@).1,
{
    let mut out: Vec<OpportunityRankKey> = Vec::new();
    let mut comparisons: Nat = 0;
    let mut i: usize = 0;
    let mut j: usize = 0;
    proof {
        assert(left@.skip(0) =~= left@);
        assert(right@.skip(0) =~= right@);
        assert(out@ + merge_count(left@, right@).0 =~= merge_count(left@, right@).0);
    }
    while i < left.len() && j < right.len()
        invariant
            i <= left.len(),
            j <= right.len(),
            left.len() + right.len() <= usize::MAX,
            comparisons <= i + j,
            merge_count(left@, right@).0 == out@ + merge_count(left@.skip(i as int), right@.skip(j as int)).0,
            merge_count(left@, right@).1 == comparisons + merge_count(left@.skip(i as int), right@.skip(j as int)).1,
        decreases left.len() + right.len() - i - j,
    {
        let ghost ls = left@.skip(i as int);
        let ghost rs = right@.skip(j as int);
        proof {
            assert(ls[0] == left@[i as int]);
            assert(rs[0] == right@[j as int]);
            assert(ls.drop_first() =~= left@.skip(i as int + 1));
            assert(rs.drop_first() =~= right@.skip(j as int + 1));
        }
        comparisons += 1;
        if left[i] <= right[j] {
            proof {
                let rest = merge_count(ls.drop_first(), rs).0;
                assert(out@.push(left@[i as int]) + rest =~= out@ + (seq![left@[i as int]] + rest));
            }
            out.push(left[i]);
            i += 1;
        } else {
            proof {
                let rest = merge_count(ls, rs.drop_first()).0;
                assert(out@.push(right@[j as int]) + rest =~= out@ + (seq![right@[j as int]] + rest));
            }
            out.push(right[j]);
            j += 1;
        }
    }
    proof {
        let ls = left@.skip(i as int);
        let rs = right@.skip(j as int);
        if i == left.len() {
            assert(ls.len() == 0);
            assert(ls + rs =~= rs);
        } else {
            assert(rs.len() == 0);
            assert(ls + rs =~= ls);
        }
        assert(out@ + (ls + rs) =~= out@ + ls + rs);
    }
    while i < left.len()
        invariant
            i <= left.len(),
            j <= right.len(),
            i < left.len() ==> j == right.len(),
            merge_count(left@, right@).0 == out@ + left@.skip(i as int) + right@.skip(j as int),
            merge_count(left@, right@).1 == comparisons,
        decreases left.len() - i,
    {
        proof {
            assert(right@.skip(j as int).len() == 0);
            assert(out@.push(left@[i as int]) + left@.skip(i as int + 1) + right@.skip(j as int) =~= out@ + left@.skip(i as int) + right@.skip(j as int));
        }
        out.push(left[i]);
        i += 1;
    }
    while j < right.len()
        invariant
            i == left.len(),
            j <= right.len(),
            merge_count(left@, right@).0 == out@ + left@.skip(i as int) + right@.skip(j as int),
            merge_count(left@, right@).1 == comparisons,
        decreases right.len() - j,
    {
        proof {
            assert(left@.skip(i as int).len() == 0);
            assert(out@.push(right@[j as int]) + left@.skip(i as int) + right@.skip(j as int + 1) =~= out@ + left@.skip(i as int) + right@.skip(j as int));
        }
        out.push(right[j]);
        j += 1;
    }
    proof {
        assert(out@ + left@.skip(i as int) + right@.skip(j as int) =~= out@);
    }
    (out, comparisons)
}

fn merge_sort_count(values: Vec<OpportunityRankKey>) -> (r: (Vec<OpportunityRankKey>, Nat))
    ensures
        r.0@ == merge_sort_count_spec(values@).0,
        r.1 == merge_sort_count_spec(values@).1,
    decreases values.len(),
{
    let len = values.len();
    if len <= 1 {
        return (values, 0);
    }
    let mid = len / 2;
    let mut left: Vec<OpportunityRankKey> = Vec::new();
    let mut right: Vec<OpportunityRankKey> = Vec::new();
    let mut k: usize = 0;
    while k < len
        invariant
            len == values.len(),
            mid == len / 2,
            k <= len,
            k <= mid ==> left@ == values@.take(k as int) && right@.len() == 0,
            k > mid ==> left@ == values@.take(mid as int) && right@ == values@.skip(mid as int).take(k - mid),
        decreases len - k,
    {
        if k < mid {
            left.push(values[k]);
            proof {
                assert(values@.take(k as int + 1) =~= values@.take(k as int).push(values@[k as int]));
            }
        } else {
            right.push(values[k]);
            proof {
                assert(values@.skip(mid as int).take(k + 1 - mid) =~= values@.skip(mid as int).take(k - mid).push(values@[k as int]));
            }
        }
        k += 1;
    }
    proof {
        assert(right@ =~= values@.skip(mid as int));
        lemma_merge_sort_sorts(values@.take(mid as int));
        lemma_merge_sort_sorts(values@.skip(mid as int));
        lemma_merge_sort_sorts(values@);
        lemma_merge_facts(merge_sort_count_spec(values@.take(mid as int)).0, merge_sort_count_spec(values@.skip(mid as int)).0);
    }
    let (ls, lc) = merge_sort_count(left);
    let (rs, rc) = merge_sort_count(right);
    let (merged, mc) = merge_runs(ls, rs);
    proof {
        let n = len as int;
        assert(n * n <= u128::MAX) by (nonlinear_arith)
            requires
                0 <= n <= u64::MAX,
        ;
    }
    (merged, lc + rc + mc)
}

/// The rank keys in increasing order, with the number of comparisons the
/// merge sort made to order them.
pub fn rank_opportunity_keys(candidates: &[DropshipOpportunityCandidate]) -> (r: Timed<Vec<OpportunityRankKey>>)
    ensures
        r.spec_ret()@ == merge_sort_count_spec(rank_keys_spec(candidates@)).0,
        r.spec_time() == merge_sort_count_spec(rank_keys_spec(candidates@)).1,
        keys_sorted(r.spec_ret()@),
        r.spec_ret()@.to_multiset() == rank_keys_spec(candidates@).to_multiset(),
        2 * r.spec_time() <= candidates.len() * (candidates.len() - 1),
        r.spec_time() <= candidates.len() * ceil_log2(candidates.len() as nat),
{
    let keys = opportunity_rank_keys(candidates);
    proof {
        lemma_merge_sort_sorts(keys@);
    }
    let (sorted, comparisons) = merge_sort_count(keys);
    Timed::new(sorted, comparisons)
}

} // verus!
