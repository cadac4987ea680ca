//! Order statistics over small sample windows: the nearest-rank quantile
//! used to size the adaptive jitter buffers and the lower median of the
//! decode→present latency window.
use std::collections::VecDeque;
use vstd::prelude::*;
use vstd::multiset::Multiset;
use vstd::relations::*;

verus! {

broadcast use vstd::seq_lib::group_to_multiset_ensures;

/// The natural order on `u32` samples.
pub open spec fn u32_leq() -> spec_fn(u32, u32) -> bool {
    |a: u32, b: u32| a <= b
}

/// The samples in ascending order.
pub open spec fn ascending(s: Seq<u32>) -> Seq<u32> {
    s.sort_by(u32_leq())
}

pub proof fn lemma_u32_leq_total()
    ensures
        total_ordering(u32_leq()),
{
    assert(reflexive(u32_leq()));
    assert(antisymmetric(u32_leq()));
    assert(transitive(u32_leq()));
    assert(strongly_connected(u32_leq()));
}

/// The ascending order is a permutation of the samples, sorted.
pub proof fn lemma_ascending(s: Seq<u32>)
    ensures
        ascending(s).to_multiset() == s.to_multiset(),
        ascending(s).len() == s.len(),
        sorted_by(ascending(s), u32_leq()),
{
    lemma_u32_leq_total();
    s.lemma_sort_by_ensures(u32_leq());
    vstd::seq_lib::to_multiset_len(s);
    vstd::seq_lib::to_multiset_len(ascending(s));
}

/// A sorted sequence with the same samples is the ascending order.
pub proof fn lemma_is_ascending(s: Seq<u32>, t: Seq<u32>)
    requires
        sorted_by(t, u32_leq()),
        t.to_multiset() == s.to_multiset(),
    ensures
        t == ascending(s),
{
    lemma_u32_leq_total();
    lemma_ascending(s);
    vstd::seq_lib::lemma_sorted_unique(t, ascending(s), u32_leq());
}

/// A copy of the window's samples in ascending order (insertion sort).
pub fn ascending_copy(window: &VecDeque<u32>) -> (sorted: Vec<u32>)
    ensures
        sorted@ == ascending(window@),
{
    let n = window.len();
    let mut sorted: Vec<u32> = Vec::new();
    let mut i: usize = 0;
    while i < n
        invariant
            n == window@.len(),
            i <= n,
            sorted@.len() == i,
            sorted_by(sorted@, u32_leq()),
            sorted@.to_multiset() == window@.take(i as int).to_multiset(),
        decreases n - i,
    {
        let x = window[i];
        // First position holding a sample greater than `x`.
        let mut p: usize = 0;
        while p < sorted.len() && sorted[p] <= x
            invariant
                p <= sorted@.len(),
                forall|k: int| 0 <= k < p ==> sorted@[k] <= x,
            decreases sorted@.len() - p,
        {
            p = p + 1;
        }
        let ghost before = sorted@;
        sorted.insert(p, x);
        proof {
            vstd::seq_lib::to_multiset_insert(before, p as int, x);
            assert(window@.take(i + 1) =~= window@.take(i as int).push(x));
            vstd::seq_lib::to_multiset_build(window@.take(i as int), x);
            assert forall|a: int, b: int| 0 <= a < b < sorted@.len() implies #[trigger] u32_leq()(sorted@[a], sorted@[b]) by {
                assert(sorted_by(before, u32_leq()));
                if b < p {
                    assert(u32_leq()(before[a], before[b]));
                } else if a < p && b == p {
                } else if a < p {
                    assert(before[a] <= x);
                    if p < before.len() {
                        assert(u32_leq()(before[p as int], before[b - 1]));
                    }
                } else if a == p {
                    assert(u32_leq()(before[p as int], before[b - 1]));
                } else {
                    assert(u32_leq()(before[a - 1], before[b - 1]));
                }
            }
        }
        i = i + 1;
    }
    proof {
        assert(window@.take(n as int) =~= window@);
        lemma_is_ascending(window@, sorted@);
    }
    sorted
}

/// 1-based nearest rank of quantile `percent` (clamped to 100) in a window of
/// `n` samples: ceil(percent·n / 100), and at least the first sample.
pub open spec fn nearest_rank_index(n: nat, percent: u32) -> int {
    let p = if percent > 100 { 100 } else { percent as nat };
    let rank = (n * p + 99) / 100;
    if rank == 0 { 0 } else if rank > n { n - 1 } else { rank - 1 }
}

/// Nearest-rank quantile of a sample window: the ceil(p·N)-th smallest
/// sample, with the quantile given in percent and clamped to [0, 100].
/// `None` for an empty window.
pub fn percentile_quantile(history: &VecDeque<u32>, quantile_percent: u32) -> (q: Option<u32>)
    ensures
        history@.len() == 0 ==> q is None,
        history@.len() > 0 ==> q == Some(ascending(history@)[nearest_rank_index(history@.len(), quantile_percent)]),
        q is Some ==> ({
            let pc: int = if quantile_percent > 100 { 100 } else { quantile_percent as int };
            let r: int = (history@.len() * pc + 99) / 100;
            let r1: int = if r == 0 { 1 } else { r };
            &&& history@.contains(q->0)
            &&& history@.to_multiset().filter(at_most(q->0)).len() >= r1
            &&& history@.to_multiset().filter(below(q->0)).len() < r1
        }),
{
    if history.len() == 0 {
        return None;
    }
    let sorted = ascending_copy(history);
    let n = sorted.len();
    let p: u128 = if quantile_percent > 100 { 100 } else { quantile_percent as u128 };
    assert(n as u128 * p <= n as u128 * 100) by (nonlinear_arith)
        requires
            p <= 100,
    ;
    let rank: u128 = (n as u128 * p + 99) / 100;
    let index: usize = if rank == 0 {
        0
    } else if rank > n as u128 {
        n - 1
    } else {
        (rank - 1) as usize
    };
    proof {
        lemma_ascending(history@);
        lemma_quantile_rank(history@, quantile_percent);
    }
    Some(sorted[index])
}

/// Lower median index of a window of `n` samples.
pub open spec fn lower_median_index(n: nat) -> int {
    (n as int - 1) / 2
}

/// Median of a non-empty window of decode→present deltas (the lower middle
/// for an even count).
pub fn median_of_deltas(deltas: &VecDeque<u32>) -> (m: u32)
    requires
        deltas@.len() > 0,
    ensures
        m == ascending(deltas@)[lower_median_index(deltas@.len())],
        deltas@.contains(m),
        deltas@.to_multiset().filter(at_most(m)).len() >= (deltas@.len() + 1) / 2,
        deltas@.to_multiset().filter(below(m)).len() <= (deltas@.len() - 1) / 2,
{
    let sorted = ascending_copy(deltas);
    proof {
        lemma_ascending(deltas@);
        lemma_median_laws(deltas@, deltas@);
    }
    sorted[(sorted.len() - 1) / 2]
}

/// Samples at most `v`.
pub open spec fn at_most(v: u32) -> spec_fn(u32) -> bool {
    |x: u32| x <= v
}

/// Samples at least `v`.
pub open spec fn at_least(v: u32) -> spec_fn(u32) -> bool {
    |x: u32| x >= v
}

/// Samples below `v`.
pub open spec fn below(v: u32) -> spec_fn(u32) -> bool {
    |x: u32| x < v
}

proof fn lemma_filter_len_le(m: Multiset<u32>, f: spec_fn(u32) -> bool)
    ensures
        m.filter(f).len() <= m.len(),
{
    broadcast use vstd::multiset::group_multiset_axioms;

    let g = |x: u32| !f(x);
    assert(m =~= m.filter(f).add(m.filter(g)));
}

/// When no sample from position `i` on satisfies `f`, at most `i` samples
/// of `t` do.
proof fn lemma_tail_excluded_count(t: Seq<u32>, i: int, f: spec_fn(u32) -> bool)
    requires
        0 <= i <= t.len(),
        forall|j: int| i <= j < t.len() ==> !#[trigger] f(t[j]),
    ensures
        t.to_multiset().filter(f).len() <= i,
{
    broadcast use vstd::multiset::group_multiset_axioms;

    let a = t.subrange(0, i);
    let c = t.subrange(i, t.len() as int);
    assert(t =~= a + c);
    vstd::seq_lib::lemma_multiset_commutative(a, c);
    let ma = a.to_multiset();
    let mc = c.to_multiset();
    lemma_filter_add(ma, mc, f);
    assert forall|v: u32| mc.filter(f).count(v) == 0 by {
        if mc.count(v) > 0 {
            assert(c.contains(v));
            let j = choose|j: int| 0 <= j < c.len() && c[j] == v;
            assert(!f(t[i + j]));
        }
    }
    assert(mc.filter(f) =~= Multiset::empty());
    lemma_filter_len_le(ma, f);
    vstd::seq_lib::to_multiset_len(a);
}

proof fn lemma_filter_add(a: Multiset<u32>, b: Multiset<u32>, f: spec_fn(u32) -> bool)
    ensures
        a.add(b).filter(f) == a.filter(f).add(b.filter(f)),
{
    broadcast use vstd::multiset::group_multiset_axioms;

    assert(a.add(b).filter(f) =~= a.filter(f).add(b.filter(f)));
}

/// A run `t[lo..hi]` of samples that all satisfy `f` puts at least
/// `hi - lo` samples into the filtered multiset of `t`.
proof fn lemma_run_count(t: Seq<u32>, lo: int, hi: int, f: spec_fn(u32) -> bool)
    requires
        0 <= lo <= hi <= t.len(),
        forall|j: int| lo <= j < hi ==> #[trigger] f(t[j]),
    ensures
        t.to_multiset().filter(f).len() >= hi - lo,
{
    broadcast use vstd::multiset::group_multiset_axioms;

    let a = t.subrange(0, lo);
    let mid = t.subrange(lo, hi);
    let c = t.subrange(hi, t.len() as int);
    assert(t =~= (a + mid) + c);
    vstd::seq_lib::lemma_multiset_commutative(a + mid, c);
    vstd::seq_lib::lemma_multiset_commutative(a, mid);
    let ma = a.to_multiset();
    let mm = mid.to_multiset();
    let mc = c.to_multiset();
    assert(t.to_multiset() == ma.add(mm).add(mc));
    lemma_filter_add(ma.add(mm), mc, f);
    lemma_filter_add(ma, mm, f);
    assert forall|v: u32| mm.filter(f).count(v) == mm.count(v) by {
        if mm.count(v) > 0 {
            assert(mid.contains(v));
            let j = choose|j: int| 0 <= j < mid.len() && mid[j] == v;
            assert(f(t[lo + j]));
        }
    }
    assert(mm.filter(f) =~= mm);
    vstd::seq_lib::to_multiset_len(mid);
}

/// The sample at sorted position `i` of a window: one of its samples, the
/// same for every ordering of the window, with at least `i + 1` samples at
/// or below it and at least `n - i` at or above it.
pub proof fn lemma_order_statistic(s: Seq<u32>, t: Seq<u32>, i: int)
    requires
        0 <= i < s.len(),
        t.to_multiset() == s.to_multiset(),
    ensures
        s.contains(ascending(s)[i]),
        t.len() == s.len(),
        ascending(t)[i] == ascending(s)[i],
        s.to_multiset().filter(at_most(ascending(s)[i])).len() >= i + 1,
        s.to_multiset().filter(at_least(ascending(s)[i])).len() >= s.len() - i,
        s.to_multiset().filter(below(ascending(s)[i])).len() <= i,
{
    let a = ascending(s);
    lemma_ascending(s);
    lemma_ascending(t);
    lemma_is_ascending(t, a);
    vstd::seq_lib::to_multiset_len(s);
    vstd::seq_lib::to_multiset_len(t);
    let v = a[i];
    assert(a.to_multiset().count(v) > 0);
    assert(s.to_multiset().count(v) > 0);
    assert(s.contains(v));
    assert forall|j: int| 0 <= j < i + 1 implies #[trigger] at_most(v)(a[j]) by {
        if j < i {
            assert(u32_leq()(a[j], a[i]));
        }
    }
    lemma_run_count(a, 0, i + 1, at_most(v));
    assert forall|j: int| i <= j < a.len() implies #[trigger] at_least(v)(a[j]) by {
        if j > i {
            assert(u32_leq()(a[i], a[j]));
        }
    }
    lemma_run_count(a, i, a.len() as int, at_least(v));
    assert forall|j: int| i <= j < a.len() implies !#[trigger] below(v)(a[j]) by {
        if j > i {
            assert(u32_leq()(a[i], a[j]));
        }
    }
    lemma_tail_excluded_count(a, i, below(v));
}

/// The nearest-rank quantile of a non-empty window, the percent clamped to
/// 100: with `r` = ceil(p·n / 100) (and 1 for a zero rank), it is a sample
/// of the window with at least `r` samples at or below it and fewer than
/// `r` strictly below it, i.e. the r-th smallest sample.
pub proof fn lemma_quantile_rank(s: Seq<u32>, p: u32)
    requires
        s.len() > 0,
    ensures
        ({
            let pc: int = if p > 100 { 100 } else { p as int };
            let r: int = (s.len() * pc + 99) / 100;
            let r1: int = if r == 0 { 1 } else { r };
            let q = ascending(s)[nearest_rank_index(s.len(), p)];
            &&& s.contains(q)
            &&& s.to_multiset().filter(at_most(q)).len() >= r1
            &&& s.to_multiset().filter(below(q)).len() < r1
        }),
{
    let n = s.len();
    let pc: int = if p > 100 { 100 } else { p as int };
    assert(n * pc <= n * 100) by (nonlinear_arith)
        requires
            0 <= pc <= 100,
    ;
    let r: int = (n * pc + 99) / 100;
    assert(r <= n);
    lemma_order_statistic(s, s, nearest_rank_index(n, p));
}

/// The nearest-rank quantile of a non-empty window is one of its samples,
/// does not depend on the order of the window, and does not decrease as the
/// percent rises.
pub proof fn lemma_quantile_laws(s: Seq<u32>, t: Seq<u32>, p: u32, q: u32)
    requires
        s.len() > 0,
        t.to_multiset() == s.to_multiset(),
        p <= q,
    ensures
        s.contains(ascending(s)[nearest_rank_index(s.len(), p)]),
        ascending(t)[nearest_rank_index(t.len(), p)] == ascending(s)[nearest_rank_index(s.len(), p)],
        ascending(s)[nearest_rank_index(s.len(), p)] <= ascending(s)[nearest_rank_index(s.len(), q)],
{
    let n = s.len();
    let pc: nat = if p > 100 { 100 } else { p as nat };
    let qc: nat = if q > 100 { 100 } else { q as nat };
    assert(n * pc <= n * qc) by (nonlinear_arith)
        requires
            pc <= qc,
    ;
    let ip = nearest_rank_index(n, p);
    let iq = nearest_rank_index(n, q);
    assert(0 <= ip <= iq < n);
    lemma_order_statistic(s, t, ip);
    lemma_ascending(s);
    if ip < iq {
        assert(u32_leq()(ascending(s)[ip], ascending(s)[iq]));
    }
}

/// The lower median of a non-empty window is one of its samples, does not
/// depend on the order of the window, and has at least `(n + 1) / 2`
/// samples at or below it and at least `n / 2 + 1` at or above it.
pub proof fn lemma_median_laws(s: Seq<u32>, t: Seq<u32>)
    requires
        s.len() > 0,
        t.to_multiset() == s.to_multiset(),
    ensures
        s.contains(ascending(s)[lower_median_index(s.len())]),
        ascending(t)[lower_median_index(t.len())] == ascending(s)[lower_median_index(s.len())],
        s.to_multiset().filter(at_most(ascending(s)[lower_median_index(s.len())])).len() >= (s.len() + 1) / 2,
        s.to_multiset().filter(at_least(ascending(s)[lower_median_index(s.len())])).len() >= s.len() / 2 + 1,
        s.to_multiset().filter(below(ascending(s)[lower_median_index(s.len())])).len() <= (s.len() - 1) / 2,
{
    lemma_order_statistic(s, t, lower_median_index(s.len()));
}

} // verus!
