use vstd::prelude::*;

use crate::model::{
    is_multiple_of_any, lemma_multiple_pair, lemma_multiple_single, lemma_sum_below_bounds,
    lemma_triangle_monotonic, lemma_triangle_step, multiple_term, sum_multiples_below, three_five,
    triangle,
};
use vstd::arithmetic::div_mod::{
    lemma_div_nonincreasing, lemma_div_of0, lemma_div_pos_is_pos, lemma_fundamental_div_mod,
    lemma_fundamental_div_mod_converse, lemma_mod_bound, lemma_mod_mod,
};
use vstd::arithmetic::mul::{lemma_mul_is_distributive_add, lemma_mul_is_distributive_sub};

verus! {

/// `m` generates the common multiples of `a` and `b`: the numbers divisible
/// by both are exactly the multiples of `m`. The least common multiple is
/// the generator the inclusion-exclusion formula calls for.
pub open spec fn generates_common_multiples(a: int, b: int, m: int) -> bool {
    forall|n: int| 0 <= n ==> ((n % a == 0 && n % b == 0) <==> #[trigger] (n % m) == 0)
}

/// The plain product of `a` and `b` generates their common multiples. This
/// is what lets the product stand in for the least common multiple; it holds
/// precisely of coprime pairs.
pub open spec fn common_multiples_match_product(a: int, b: int) -> bool {
    generates_common_multiples(a, b, a * b)
}

/// 3 and 5 are coprime: a number is a common multiple of 3 and 5 exactly when
/// it is a multiple of 15.
pub proof fn lemma_three_five_coprime()
    ensures
        common_multiples_match_product(3, 5),
{
    assert forall|n: int| 0 <= n implies ((n % 3int == 0 && n % 5int == 0) <==> #[trigger] (n
        % (3int * 5int)) == 0) by {
        lemma_mod_mod(n, 3, 5);
        lemma_mod_mod(n, 5, 3);
        lemma_mod_bound(n, 15);
        assert(3int * 5int == 15);
        assert(5int * 3int == 15);
    };
}

/// Gauss's closed form for a single base: the multiples of `d` below `limit`
/// are `d*1, d*2, ..., d*c` for `c == (limit - 1) / d`, so their sum is
/// `d * T(c)`.
pub proof fn lemma_sum_single_formula(d: u64, limit: int)
    requires
        d >= 1,
        limit >= 1,
    ensures
        sum_multiples_below(seq![d], limit) == d as int * triangle((limit - 1) / (d as int)),
    decreases limit,
{
    let di = d as int;
    if limit == 1 {
        lemma_div_of0(di);
    } else {
        let l = limit - 1;
        lemma_sum_single_formula(d, l);
        lemma_multiple_single(d, l);
        let c1 = (l - 1) / di;
        let c2 = l / di;
        lemma_fundamental_div_mod(l, di);
        lemma_mod_bound(l, di);
        lemma_div_pos_is_pos(l, di);
        if l % di == 0 {
            assert(l == di * c2);
            if c2 == 0 {
                assert(di * c2 == 0) by (nonlinear_arith)
                    requires
                        c2 == 0,
                ;
            }
            assert(c2 >= 1);
            lemma_mul_is_distributive_sub(di, c2, 1);
            lemma_fundamental_div_mod_converse(l - 1, di, c2 - 1, di - 1);
            assert(c1 == c2 - 1);
            lemma_triangle_step(c2);
            lemma_mul_is_distributive_add(di, triangle(c1), c2);
        } else {
            lemma_fundamental_div_mod_converse(l - 1, di, c2, l % di - 1);
            assert(c1 == c2);
        }
    }
}

/// When every multiple of `m` in the range is also a multiple of `d`, the
/// multiples of `m` form a sub-series, so their sum is no larger.
pub proof fn lemma_sum_single_subset(d: u64, m: u64, limit: int)
    requires
        limit >= 0,
        forall|n: int|
            1 <= n < limit && #[trigger] (n % (m as int)) == 0 ==> n % (d as int) == 0,
    ensures
        sum_multiples_below(seq![m], limit) <= sum_multiples_below(seq![d], limit),
    decreases limit,
{
    if limit > 1 {
        let l = limit - 1;
        lemma_sum_single_subset(d, m, l);
        lemma_multiple_single(d, l);
        lemma_multiple_single(m, l);
    }
}

/// Inclusion-exclusion for a pair of bases and a generator `m` of their
/// common multiples: counting the multiples of each base counts the common
/// ones twice, and subtracting the multiples of `m` corrects for it.
pub proof fn lemma_pair_inclusion_exclusion(a: u64, b: u64, m: u64, limit: int)
    requires
        limit >= 1,
        generates_common_multiples(a as int, b as int, m as int),
    ensures
        sum_multiples_below(seq![a, b], limit) == sum_multiples_below(seq![a], limit)
            + sum_multiples_below(seq![b], limit) - sum_multiples_below(seq![m], limit),
    decreases limit,
{
    if limit > 1 {
        let l = limit - 1;
        lemma_pair_inclusion_exclusion(a, b, m, l);
        lemma_multiple_pair(a, b, l);
        lemma_multiple_single(a, l);
        lemma_multiple_single(b, l);
        lemma_multiple_single(m, l);
        assert((l % (a as int) == 0 && l % (b as int) == 0) <==> l % (m as int) == 0);
    }
}

/// The closed-form algorithm and the linear-scan definition agree: for any
/// pair of bases and any generator `m` of their common multiples (the least
/// common multiple in particular), the inclusion-exclusion formula over
/// triangular numbers equals the sum the scan accumulates term by term.
pub proof fn lemma_closed_form_matches_scan(v1: u64, v2: u64, m: u64, limit: int)
    requires
        v1 >= 1,
        v2 >= 1,
        m >= 1,
        limit >= 1,
        generates_common_multiples(v1 as int, v2 as int, m as int),
    ensures
        sum_multiples_below(seq![v1, v2], limit) == v1 as int * triangle(
            (limit - 1) / (v1 as int),
        ) + v2 as int * triangle((limit - 1) / (v2 as int)) - m as int * triangle(
            (limit - 1) / (m as int),
        ),
{
    lemma_pair_inclusion_exclusion(v1, v2, m, limit);
    lemma_sum_single_formula(v1, limit);
    lemma_sum_single_formula(v2, limit);
    lemma_sum_single_formula(m, limit);
}

/// The canonical instance: the sum of the multiples of 3 or 5 below 1000.
pub proof fn lemma_canonical_answer()
    ensures
        sum_multiples_below(three_five(), 1000) == 233168,
{
    assert(999int / 3int == 333);
    assert(999int / 5int == 199);
    assert(999int / 15int == 66);
    assert(triangle(333) == 55611);
    assert(triangle(199) == 19900);
    assert(triangle(66) == 2211);
    lemma_three_five_coprime();
    assert(generates_common_multiples(3, 5, 15));
    lemma_closed_form_matches_scan(3, 5, 15, 1000);
    assert(three_five() == seq![3u64, 5u64]);
}

/// The k-th triangular number, computed directly.
fn triangular(k: u64) -> (r: u64)
    requires
        k <= 0xFFFF_FFFF,
    ensures
        r == triangle(k as int),
{
    proof {
        assert(k as int * (k as int + 1) <= 0xFFFF_FFFFint * 0x1_0000_0000int) by (nonlinear_arith)
            requires
                k <= 0xFFFF_FFFF,
        ;
    }
    k * (k + 1) / 2
}

/// Closed-form sum of the multiples of `v1` or `v2` below `end`:
/// inclusion-exclusion over triangular numbers, with the product of the two
/// bases standing in for their least common multiple.
pub fn sum_multiples_of_two_below(v1: u64, v2: u64, end: u64) -> (r: u64)
    requires
        v1 >= 1,
        v2 >= 1,
        1 <= end <= 0x1_0000_0000,
        v1 as int * v2 as int <= u64::MAX,
        common_multiples_match_product(v1 as int, v2 as int),
    ensures
        r == sum_multiples_below(seq![v1, v2], end as int),
{
    let a = (end - 1) / v1;
    let b = (end - 1) / v2;
    let p = v1 * v2;
    proof {
        assert(p >= 1) by (nonlinear_arith)
            requires
                p == v1 as int * v2 as int,
                v1 >= 1,
                v2 >= 1,
        ;
    }
    let c = (end - 1) / p;
    proof {
        lemma_div_nonincreasing((end - 1) as int, v1 as int);
        lemma_div_nonincreasing((end - 1) as int, v2 as int);
        lemma_div_nonincreasing((end - 1) as int, p as int);
        lemma_sum_single_formula(v1, end as int);
        lemma_sum_single_formula(v2, end as int);
        lemma_sum_single_formula(p, end as int);
        lemma_sum_below_bounds(seq![v1], end as int);
        lemma_sum_below_bounds(seq![v2], end as int);
        lemma_sum_below_bounds(seq![p], end as int);
        lemma_sum_below_bounds(seq![v1, v2], end as int);
        lemma_triangle_monotonic(end as int - 1, 0xFFFF_FFFF);
        assert(triangle(0xFFFF_FFFF) == 9223372034707292160);
    }
    let sum_a = v1 * triangular(a);
    let sum_b = v2 * triangular(b);
    let sum_c = p * triangular(c);
    proof {
        assert forall|n: int| 1 <= n < end && #[trigger] (n % (p as int)) == 0 implies n % (
        v1 as int) == 0 by {
            assert(n % (v1 as int * v2 as int) == 0);
        };
        assert(generates_common_multiples(v1 as int, v2 as int, p as int));
        lemma_sum_single_subset(v1, p, end as int);
        lemma_pair_inclusion_exclusion(v1, v2, p, end as int);
    }
    sum_a - sum_c + sum_b
}

} // verus!
