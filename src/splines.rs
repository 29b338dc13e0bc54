//! The index arithmetic and the integer tables behind B-spline basis functions.
//!
//! Knot values themselves are compared with a tolerance that callers supply; what is computed
//! here depends only on positions in the knot vector and on the outcomes of those comparisons.
use vstd::prelude::*;

verus! {

/// The largest degree of a B-spline basis.
pub const PMAX: usize = 8;

/// Range `[start, end)` of the control points whose basis functions of degree `p` can be
/// non-zero in knot span `span` of a knot vector of `num_knots` knots.
pub open spec fn basis_range(span: int, p: int, num_knots: int) -> (int, int) {
    let start = if span - p > 0 { span - p } else { 0 };
    let last = if span < num_knots - 2 - p { span } else { num_knots - 2 - p };
    (start, last + 1)
}

/// The indices of the basis functions that can be non-zero in knot span `span`: the start and
/// end of their half-open range, and how many there are.
pub fn non_zero_basis_range(span: usize, p: usize, num_knots: usize) -> (r: (usize, usize, usize))
    requires
        num_knots >= p + 2,
        span < num_knots,
    ensures
        (r.0 as int, r.1 as int) == basis_range(span as int, p as int, num_knots as int),
        r.2 == r.1 - r.0,
        r.0 <= r.1 <= num_knots - p - 1,
        r.2 <= p + 1,
        p <= span < num_knots - p - 1 ==> r.0 == span - p && r.1 == span + 1 && r.2 == p + 1,
{
    let start: usize = if span > p { span - p } else { 0 };
    let last: usize = if span < num_knots - 2 - p { span } else { num_knots - 2 - p };
    let end = last + 1;
    (start, end, end - start)
}

/// `le(a, b, o)` says that judging whether `a` lies at or below `b` may give `o`. The
/// elements of `arr` judged at or below `value` come first: once an element can be judged so,
/// no earlier one can be judged otherwise.
pub open spec fn below_is_prefix<K>(arr: Seq<K>, value: K, le: spec_fn(K, K, bool) -> bool) -> bool {
    forall|i: int, j: int|
        #![trigger arr[i], arr[j]]
        0 <= i <= j < arr.len() && le(arr[j], value, true) ==> !le(arr[i], value, false)
}

/// Number of leading elements of `arr` judged at or below `value` by `le`, found by binary
/// search: no element before the result can be judged above `value`, and none from it on can
/// be judged at or below.
pub fn upper_bound<K: Copy, L: Fn(K, K) -> bool>(arr: &[K], value: K, le: &L) -> (r: usize)
    requires
        forall|a: K, b: K| #[trigger] le.requires((a, b)),
        below_is_prefix(arr@, value, |a: K, b: K, o: bool| le.ensures((a, b), o)),
    ensures
        r <= arr@.len(),
        forall|i: int| 0 <= i < r ==> !le.ensures((#[trigger] arr@[i], value), false),
        forall|i: int| r <= i < arr@.len() ==> !le.ensures((#[trigger] arr@[i], value), true),
        r < arr@.len() ==> le.ensures((arr@[r as int], value), false),
{
    let mut lo: usize = 0;
    let mut hi: usize = arr.len();
    while lo < hi
        invariant
            forall|a: K, b: K| #[trigger] le.requires((a, b)),
            below_is_prefix(arr@, value, |a: K, b: K, o: bool| le.ensures((a, b), o)),
            lo <= hi <= arr@.len(),
            forall|i: int| 0 <= i < lo ==> !le.ensures((#[trigger] arr@[i], value), false),
            forall|i: int| hi <= i < arr@.len() ==> !le.ensures((#[trigger] arr@[i], value), true),
            hi < arr@.len() ==> le.ensures((arr@[hi as int], value), false),
        decreases hi - lo,
    {
        let mid = lo + (hi - lo) / 2;
        let below = le(arr[mid], value);
        if below {
            proof {
                assert forall|i: int| 0 <= i < mid + 1 implies !le.ensures((#[trigger] arr@[i], value), false) by {
                    if i < mid {
                        assert((|a: K, b: K, o: bool| le.ensures((a, b), o))(arr@[mid as int], value, true));
                    }
                }
            }
            lo = mid + 1;
        } else {
            proof {
                assert forall|i: int| mid <= i < arr@.len() implies !le.ensures((#[trigger] arr@[i], value), true) by {
                    if i > mid && le.ensures((arr@[i], value), true) {
                        assert((|a: K, b: K, o: bool| le.ensures((a, b), o))(arr@[i], value, true));
                        assert(!le.ensures((arr@[mid as int], value), false));
                    }
                }
            }
            hi = mid;
        }
    }
    lo
}

/// Index of the knot span of degree `p` that contains `u`: with `n` the number of control
/// points, `n - 1` when `eq` judges `u` equal to knot `n`, the end of the range; otherwise
/// `p` plus the number of knots from knot `p` on that `le` judges at or below `u`, less one.
pub fn find_span<K: Copy, E: Fn(K, K) -> bool, L: Fn(K, K) -> bool>(
    knots: &[K],
    u: K,
    p: usize,
    eq: E,
    le: L,
) -> (r: usize)
    requires
        knots@.len() >= p + 2,
        forall|a: K, b: K| #[trigger] eq.requires((a, b)),
        forall|a: K, b: K| #[trigger] le.requires((a, b)),
        below_is_prefix(knots@.subrange(p as int, knots@.len() as int), u, |a: K, b: K, o: bool| le.ensures((a, b), o)),
        !le.ensures((knots@[p as int], u), false),
    ensures
        ({
            let n = knots@.len() - p - 1;
            ||| (eq.ensures((u, knots@[n]), true) && r == n - 1)
            ||| (eq.ensures((u, knots@[n]), false) && p <= r < knots@.len() && {
                &&& forall|i: int| p <= i <= r ==> !le.ensures((#[trigger] knots@[i], u), false)
                &&& forall|i: int| r < i < knots@.len() ==> !le.ensures((#[trigger] knots@[i], u), true)
            })
        }),
{
    let n = knots.len() - p - 1;
    if eq(u, knots[n]) {
        n - 1
    } else {
        let tail = &knots[p..knots.len()];
        let idx = upper_bound(tail, u, &le);
        proof {
            assert(tail@[0] == knots@[p as int]);
            assert(idx > 0);
            let r = idx + p - 1;
            assert forall|i: int| p <= i <= r implies !le.ensures((#[trigger] knots@[i], u), false) by {
                assert(knots@[i] == tail@[i - p]);
            }
            assert forall|i: int| r < i < knots@.len() implies !le.ensures((#[trigger] knots@[i], u), true) by {
                assert(knots@[i] == tail@[i - p]);
            }
        }
        idx + p - 1
    }
}

/// The binomial coefficient `n` choose `k`, zero when `k > n`.
pub open spec fn binomial(n: nat, k: nat) -> nat
    decreases n,
{
    if k == 0 {
        1
    } else if n == 0 {
        0
    } else {
        binomial((n - 1) as nat, (k - 1) as nat) + binomial((n - 1) as nat, k)
    }
}

/// Every binomial coefficient of `n` is at most `2^n`.
pub proof fn lemma_binomial_bound(n: nat, k: nat)
    ensures
        binomial(n, k) <= vstd::arithmetic::power2::pow2(n),
    decreases n,
{
    vstd::arithmetic::power2::lemma_pow2_pos(n);
    if k != 0 && n != 0 {
        lemma_binomial_bound((n - 1) as nat, (k - 1) as nat);
        lemma_binomial_bound((n - 1) as nat, k);
        vstd::arithmetic::power2::lemma_pow2_unfold(n);
    }
}

/// The table of binomial coefficients up to `n`: entry `[i][j]` is `i` choose `j`, for `i` and
/// `j` from 0 to `n`.
pub fn binom_coeff(n: usize) -> (r: Vec<Vec<u64>>)
    requires
        n < 64,
    ensures
        r@.len() == n + 1,
        forall|i: int| 0 <= i <= n ==> #[trigger] r@[i]@.len() == n + 1,
        forall|i: int, j: int|
            0 <= i <= n && 0 <= j <= n ==> #[trigger] r@[i]@[j] == binomial(i as nat, j as nat),
{
    let mut table: Vec<Vec<u64>> = Vec::new();
    let mut i: usize = 0;
    while i <= n
        invariant
            n < 64,
            i <= n + 1,
            table@.len() == i,
            forall|a: int| 0 <= a < i ==> #[trigger] table@[a]@.len() == n + 1,
            forall|a: int, b: int|
                0 <= a < i && 0 <= b <= n ==> #[trigger] table@[a]@[b] == binomial(a as nat, b as nat),
        decreases n + 1 - i,
    {
        let mut row: Vec<u64> = Vec::new();
        let mut j: usize = 0;
        while j <= n
            invariant
                n < 64,
                i <= n,
                j <= n + 1,
                table@.len() == i,
                row@.len() == j,
                forall|a: int| 0 <= a < i ==> #[trigger] table@[a]@.len() == n + 1,
                forall|a: int, b: int|
                    0 <= a < i && 0 <= b <= n ==> #[trigger] table@[a]@[b] == binomial(
                        a as nat,
                        b as nat,
                    ),
                forall|b: int| 0 <= b < j ==> #[trigger] row@[b] == binomial(i as nat, b as nat),
            decreases n + 1 - j,
        {
            if j == 0 {
                row.push(1);
            } else if i == 0 {
                row.push(0);
            } else {
                proof {
                    lemma_binomial_bound(i as nat, j as nat);
                    vstd::arithmetic::power2::lemma_pow2_strictly_increases(i as nat, 64);
                    vstd::arithmetic::power2::lemma2_to64();
                }
                let up_left = table[i - 1][j - 1];
                let up = table[i - 1][j];
                row.push(up_left + up);
            }
            j += 1;
        }
        table.push(row);
        i += 1;
    }
    table
}

/// Sum of the counts of the first `k` runs.
pub open spec fn counts_sum<K>(runs: Seq<(K, usize)>, k: int) -> int
    decreases k,
{
    if k <= 0 {
        0
    } else {
        counts_sum(runs, k - 1) + runs[k - 1].1
    }
}

/// `runs` encodes `knots` run by run, as the equality test `eq` judged it: `eq(a, b, o)` says
/// that comparing `a` with `b` may give `o`. Each run holds its first knot and how many
/// knots it spans; every later knot of a run compared equal to that first knot, and the knot
/// that starts the next run did not.
pub open spec fn is_run_encoding<K>(
    knots: Seq<K>,
    runs: Seq<(K, usize)>,
    eq: spec_fn(K, K, bool) -> bool,
) -> bool {
    &&& counts_sum(runs, runs.len() as int) == knots.len()
    &&& runs_match(knots, runs, eq)
}

/// Each run of `runs` starts at the knot of `knots` that its place in the sequence gives,
/// spans knots that `eq` judged equal to that first knot, and is followed by a knot that `eq`
/// judged different from it.
pub open spec fn runs_match<K>(
    knots: Seq<K>,
    runs: Seq<(K, usize)>,
    eq: spec_fn(K, K, bool) -> bool,
) -> bool {
    &&& forall|k: int| 0 <= k < runs.len() ==> #[trigger] runs[k].1 >= 1
    &&& forall|k: int|
        0 <= k < runs.len() ==> #[trigger] runs[k].0 == knots[counts_sum(runs, k)]
    &&& forall|k: int, i: int|
        0 <= k < runs.len() && counts_sum(runs, k) < i < counts_sum(runs, k + 1) ==> eq(
            #[trigger] knots[i],
            #[trigger] runs[k].0,
            true,
        )
    &&& forall|k: int|
        0 <= k < runs.len() - 1 ==> eq(
            knots[counts_sum(runs, k + 1)],
            #[trigger] runs[k].0,
            false,
        )
}

/// The knots that `runs` stands for: each value repeated as often as its count.
pub open spec fn expand<K>(runs: Seq<(K, usize)>) -> Seq<K>
    decreases runs.len(),
{
    if runs.len() == 0 {
        Seq::empty()
    } else {
        let last = runs.last();
        expand(runs.drop_last()) + Seq::new(last.1 as nat, |i: int| last.0)
    }
}

/// The knots of `knots`, each with its multiplicity: consecutive knots that `same` judges equal
/// to the first knot of their run are counted in that run, in ascending order of position.
pub fn multiplicites<K: Copy, F: Fn(K, K) -> bool>(knots: &[K], same: F) -> (r: Vec<(K, usize)>)
    requires
        knots@.len() > 0,
        forall|a: K, b: K| #[trigger] same.requires((a, b)),
    ensures
        r@.len() >= 1,
        is_run_encoding(knots@, r@, |a: K, b: K, o: bool| same.ensures((a, b), o)),
{
    let ghost eq = |a: K, b: K, o: bool| same.ensures((a, b), o);
    let mut out: Vec<(K, usize)> = Vec::new();
    let mut head: K = knots[0];
    let mut count: usize = 1;
    let ghost mut start: int = 0;
    let mut i: usize = 1;
    while i < knots.len()
        invariant
            forall|a: K, b: K| #[trigger] same.requires((a, b)),
            eq == (|a: K, b: K, o: bool| same.ensures((a, b), o)),
            1 <= i <= knots@.len(),
            count >= 1,
            start + count == i,
            0 <= start,
            start == counts_sum(out@, out@.len() as int),
            head == knots@[start],
            forall|t: int| start < t < i ==> eq(#[trigger] knots@[t], head, true),
            runs_match(knots@, out@, eq),
            out@.len() > 0 ==> eq(head, out@.last().0, false),
        decreases knots@.len() - i,
    {
        let k = knots[i];
        let is_same = same(k, head);
        if is_same {
            count = count + 1;
        } else {
            proof {
                lemma_runs_push(knots@, out@, (head, count), eq, start, i as int);
            }
            out.push((head, count));
            proof {
                start = i as int;
            }
            head = k;
            count = 1;
        }
        i += 1;
    }
    proof {
        lemma_runs_push(knots@, out@, (head, count), eq, start, knots@.len() as int);
    }
    out.push((head, count));
    out
}

/// The multiplicity that `runs` records for knot `u`: the count of the first run whose knot
/// `eq` judges equal to `u`, or 0 when it judges none equal.
pub fn multiplicity<K: Copy, E: Fn(K, K) -> bool>(runs: &[(K, usize)], u: K, eq: E) -> (r: usize)
    requires
        forall|a: K, b: K| #[trigger] eq.requires((a, b)),
    ensures
        ({
            ||| (r == 0 && forall|i: int| 0 <= i < runs@.len() ==> eq.ensures((#[trigger] runs@[i].0, u), false))
            ||| exists|i: int| {
                &&& 0 <= i < runs@.len()
                &&& r == runs@[i].1
                &&& eq.ensures((#[trigger] runs@[i].0, u), true)
                &&& forall|j: int| 0 <= j < i ==> eq.ensures((#[trigger] runs@[j].0, u), false)
            }
        }),
{
    let mut i: usize = 0;
    while i < runs.len()
        invariant
            forall|a: K, b: K| #[trigger] eq.requires((a, b)),
            i <= runs@.len(),
            forall|j: int| 0 <= j < i ==> eq.ensures((#[trigger] runs@[j].0, u), false),
        decreases runs@.len() - i,
    {
        let (value, count) = runs[i];
        if eq(value, u) {
            proof {
                assert(runs@[i as int].0 == value);
            }
            return count;
        }
        i += 1;
    }
    0
}

/// Pushing a run onto `runs` leaves the sums of the earlier counts as they were.
proof fn lemma_counts_sum_push<K>(runs: Seq<(K, usize)>, x: (K, usize), k: int)
    requires
        0 <= k <= runs.len(),
    ensures
        counts_sum(runs.push(x), k) == counts_sum(runs, k),
    decreases k,
{
    if k > 0 {
        lemma_counts_sum_push(runs, x, k - 1);
    }
}

/// Closing the run that starts at `start` and ends before `end` extends runs that match the
/// knots before `start` to runs that match the knots before `end`.
proof fn lemma_runs_push<K>(
    knots: Seq<K>,
    runs: Seq<(K, usize)>,
    run: (K, usize),
    eq: spec_fn(K, K, bool) -> bool,
    start: int,
    end: int,
)
    requires
        0 <= start < end <= knots.len(),
        run.1 == end - start,
        run.0 == knots[start],
        start == counts_sum(runs, runs.len() as int),
        forall|t: int| start < t < end ==> eq(#[trigger] knots[t], run.0, true),
        runs_match(knots, runs, eq),
        runs.len() > 0 ==> eq(run.0, runs.last().0, false),
    ensures
        runs_match(knots, runs.push(run), eq),
        counts_sum(runs.push(run), runs.len() as int + 1) == end,
{
    let r2 = runs.push(run);
    let n = runs.len() as int;
    assert forall|k: int| 0 <= k <= n implies #[trigger] counts_sum(r2, k) == counts_sum(runs, k) by {
        lemma_counts_sum_push(runs, run, k);
    }
    assert(r2[n] == run);
    assert(counts_sum(r2, n) == counts_sum(runs, n));
    assert(counts_sum(r2, n + 1) == counts_sum(r2, n) + r2[n].1);
    assert(counts_sum(r2, n + 1) == end);
    assert forall|k: int| 0 <= k < r2.len() implies #[trigger] r2[k].0 == knots[counts_sum(r2, k)] by {
        if k < n {
            lemma_counts_sum_monotone(runs, k, n);
        }
    }
    assert forall|k: int, t: int|
        0 <= k < r2.len() && counts_sum(r2, k) < t < counts_sum(r2, k + 1) implies eq(
        #[trigger] knots[t],
        #[trigger] r2[k].0,
        true,
    ) by {
        if k < n {
            lemma_counts_sum_monotone(runs, k + 1, n);
        }
    }
    assert forall|k: int| 0 <= k < r2.len() - 1 implies eq(
        knots[counts_sum(r2, k + 1)],
        #[trigger] r2[k].0,
        false,
    ) by {
        lemma_counts_sum_monotone(runs, k + 1, n);
        if k + 1 < n {
        } else {
            assert(r2[k] == runs.last());
        }
    }
}

/// The sums of counts grow with the number of runs summed.
proof fn lemma_counts_sum_monotone<K>(runs: Seq<(K, usize)>, j: int, k: int)
    requires
        0 <= j <= k <= runs.len(),
    ensures
        counts_sum(runs, j) <= counts_sum(runs, k),
    decreases k - j,
{
    if j < k {
        lemma_counts_sum_monotone(runs, j, k - 1);
    }
}

/// Expanding an encoding of a knot vector, each value repeated by its count, gives back the
/// knot vector itself, as long as no two different knots of the vector compare equal.
pub proof fn lemma_multiplicities_round_trip<K>(
    knots: Seq<K>,
    runs: Seq<(K, usize)>,
    eq: spec_fn(K, K, bool) -> bool,
)
    requires
        is_run_encoding(knots, runs, eq),
        forall|i: int, j: int|
            0 <= i < knots.len() && 0 <= j < knots.len() && eq(knots[i], knots[j], true)
                ==> knots[i] == knots[j],
    ensures
        expand(runs) == knots,
{
    lemma_expand_prefix(knots, runs, eq, runs.len() as int);
    assert(runs.take(runs.len() as int) =~= runs);
    assert(knots.take(knots.len() as int) =~= knots);
}

proof fn lemma_expand_prefix<K>(
    knots: Seq<K>,
    runs: Seq<(K, usize)>,
    eq: spec_fn(K, K, bool) -> bool,
    k: int,
)
    requires
        is_run_encoding(knots, runs, eq),
        forall|i: int, j: int|
            0 <= i < knots.len() && 0 <= j < knots.len() && eq(knots[i], knots[j], true)
                ==> knots[i] == knots[j],
        0 <= k <= runs.len(),
    ensures
        counts_sum(runs, k) <= knots.len(),
        expand(runs.take(k)) == knots.take(counts_sum(runs, k)),
    decreases k,
{
    lemma_counts_sum_monotone(runs, k, runs.len() as int);
    if k == 0 {
        assert(knots.take(0) =~= Seq::<K>::empty());
    } else {
        lemma_expand_prefix(knots, runs, eq, k - 1);
        lemma_counts_sum_monotone(runs, k - 1, runs.len() as int);
        lemma_counts_sum_monotone(runs, 0, k - 1);
        let s0 = counts_sum(runs, k - 1);
        let s1 = counts_sum(runs, k);
        let run = runs[k - 1];
        assert(runs.take(k).drop_last() =~= runs.take(k - 1));
        assert(runs.take(k).last() == run);
        let block = Seq::new(run.1 as nat, |i: int| run.0);
        assert(s1 == s0 + run.1);
        assert(run.0 == knots[s0]);
        assert forall|t: int| 0 <= t < block.len() implies #[trigger] block[t] == knots[s0 + t] by {
            if t > 0 {
                assert(eq(knots[s0 + t], runs[k - 1].0, true));
                assert(eq(knots[s0 + t], knots[s0], true));
            }
        }
        assert(knots.take(s1) =~= knots.take(s0) + block);
    }
}

} // verus!
