use vstd::prelude::*;

verus! {

/// The pair of bases of the classic instance: multiples of 3 or of 5.
pub open spec fn three_five() -> Seq<u64> {
    seq![3u64, 5u64]
}

/// `n` is divisible by at least one element of `bases`.
pub open spec fn is_multiple_of_any(bases: Seq<u64>, n: int) -> bool {
    exists|i: int| 0 <= i < bases.len() && n % ((#[trigger] bases[i]) as int) == 0
}

/// What `n` contributes to the sum: `n` itself when it is a multiple of a
/// base, nothing otherwise.
pub open spec fn multiple_term(bases: Seq<u64>, n: int) -> int {
    if is_multiple_of_any(bases, n) {
        n
    } else {
        0
    }
}

/// The sum of all integers in `[1, limit)` divisible by at least one element
/// of `bases`.
pub open spec fn sum_multiples_below(bases: Seq<u64>, limit: int) -> int
    decreases limit,
{
    if limit <= 1 {
        0
    } else {
        sum_multiples_below(bases, limit - 1) + multiple_term(bases, limit - 1)
    }
}

/// The triangular number T(k) = 1 + 2 + ... + k.
pub open spec fn triangle(k: int) -> int {
    k * (k + 1) / 2
}

/// With a single base `d`, membership is plain divisibility by `d`.
pub proof fn lemma_multiple_single(d: u64, n: int)
    ensures
        is_multiple_of_any(seq![d], n) <==> n % (d as int) == 0,
{
    let s = seq![d];
    if n % (d as int) == 0 {
        assert(0 <= 0 < s.len() && n % ((s[0]) as int) == 0);
    }
    if is_multiple_of_any(s, n) {
        let i = choose|i: int| 0 <= i < s.len() && n % ((#[trigger] s[i]) as int) == 0;
        assert(i == 0);
    }
}

/// With a pair of bases, membership is divisibility by either one.
pub proof fn lemma_multiple_pair(a: u64, b: u64, n: int)
    ensures
        is_multiple_of_any(seq![a, b], n) <==> (n % (a as int) == 0 || n % (b as int) == 0),
{
    let s = seq![a, b];
    if n % (a as int) == 0 {
        assert(0 <= 0 < s.len() && n % ((s[0]) as int) == 0);
    }
    if n % (b as int) == 0 {
        assert(0 <= 1 < s.len() && n % ((s[1]) as int) == 0);
    }
    if is_multiple_of_any(s, n) {
        let i = choose|i: int| 0 <= i < s.len() && n % ((#[trigger] s[i]) as int) == 0;
        assert(i == 0 || i == 1);
    }
}

/// Consecutive triangular numbers differ by the new index.
pub proof fn lemma_triangle_step(k: int)
    requires
        k >= 1,
    ensures
        triangle(k) == triangle(k - 1) + k,
{
    vstd::arithmetic::div_mod::lemma_hoist_over_denominator((k - 1) * k, k, 2nat);
    assert((k - 1) * k + k * 2 == k * (k + 1)) by (nonlinear_arith);
}

/// Triangular numbers grow with their index.
pub proof fn lemma_triangle_monotonic(j: int, k: int)
    requires
        0 <= j <= k,
    ensures
        triangle(j) <= triangle(k),
    decreases k - j,
{
    if j < k {
        lemma_triangle_monotonic(j, k - 1);
        lemma_triangle_step(k);
    }
}

/// The sum of multiples below `limit` is non-negative and at most the sum of
/// the whole range, the triangular number T(limit - 1).
pub proof fn lemma_sum_below_bounds(bases: Seq<u64>, limit: int)
    requires
        limit >= 1,
    ensures
        0 <= sum_multiples_below(bases, limit) <= triangle(limit - 1),
    decreases limit,
{
    if limit == 1 {
    } else {
        lemma_sum_below_bounds(bases, limit - 1);
        lemma_triangle_step(limit - 1);
    }
}

/// The upper bound is exclusive: the sum below `limit` never includes `limit`
/// itself, even when `limit` is a multiple of a base; `limit` first enters
/// once the bound moves past it.
pub proof fn lemma_limit_excluded(bases: Seq<u64>, limit: int)
    requires
        limit >= 0,
    ensures
        sum_multiples_below(bases, limit + 1) == sum_multiples_below(bases, limit)
            + multiple_term(bases, limit),
{
    if limit == 0 {
        assert(sum_multiples_below(bases, 1) == 0);
        assert(multiple_term(bases, 0) == 0);
    }
}

/// Purity: the sum is a function of `bases` and `limit` alone, so two results
/// obtained from identical inputs are identical.
pub proof fn lemma_sum_deterministic(bases: Seq<u64>, limit: int, r1: int, r2: int)
    requires
        r1 == sum_multiples_below(bases, limit),
        r2 == sum_multiples_below(bases, limit),
    ensures
        r1 == r2,
{
}

} // verus!
