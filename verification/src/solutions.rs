use vstd::prelude::*;

use crate::closed_form::{
    lemma_canonical_answer, lemma_three_five_coprime, sum_multiples_of_two_below,
};
use crate::generator::{is_three_five_multiple, Euler};
use crate::model::{
    lemma_limit_excluded, lemma_multiple_pair, lemma_sum_below_bounds, lemma_triangle_monotonic,
    multiple_term, sum_multiples_below, three_five, triangle,
};
use crate::scan::{sum_multiples, sum_multiples_scan, valid_inputs};
use vstd::pervasive::unreached;

verus! {

/// The closed-form inclusion-exclusion formula over triangular numbers.
pub fn p1_sol1() -> (r: u64)
    ensures
        r == sum_multiples_below(three_five(), 1000),
        r == 233168,
{
    proof {
        lemma_three_five_coprime();
        lemma_canonical_answer();
        assert(three_five() == seq![3u64, 5u64]);
    }
    sum_multiples_of_two_below(3, 5, 1000)
}

/// A direct filtering scan with the two divisor tests written out.
pub fn p1_sol2() -> (r: u64)
    ensures
        r == sum_multiples_below(three_five(), 1000),
        r == 233168,
{
    let mut total: u64 = 0;
    let mut n: u64 = 1;
    while n < 1000
        invariant
            1 <= n <= 1000,
            total == sum_multiples_below(three_five(), n as int),
        decreases 1000 - n,
    {
        proof {
            lemma_sum_below_bounds(three_five(), n as int);
            lemma_triangle_monotonic(n as int - 1, 999);
            assert(triangle(999) == 499500);
            lemma_limit_excluded(three_five(), n as int);
            lemma_multiple_pair(3, 5, n as int);
        }
        if n % 3 == 0 || n % 5 == 0 {
            total = total + n;
        }
        n = n + 1;
    }
    proof {
        lemma_canonical_answer();
    }
    total
}

/// The general filtering scan, instantiated for the bases 3 and 5.
pub fn p1_sol3() -> (r: u64)
    ensures
        r == sum_multiples_below(three_five(), 1000),
        r == 233168,
{
    let mut bases: Vec<u64> = Vec::new();
    bases.push(3);
    bases.push(5);
    proof {
        assert(bases@ =~= three_five());
        lemma_canonical_answer();
    }
    sum_multiples_scan(&bases, 1000)
}

/// The filter built from a runtime list of divisors, through the validating
/// entry point; its inputs are well formed, so the error arm is unreachable.
pub fn p1_sol4() -> (r: u64)
    ensures
        r == sum_multiples_below(three_five(), 1000),
        r == 233168,
{
    let mut bases: Vec<u64> = Vec::new();
    bases.push(3);
    bases.push(5);
    proof {
        assert(bases@ =~= three_five());
        lemma_canonical_answer();
        assert(valid_inputs(bases@, 1000));
    }
    match sum_multiples(&bases, 1000) {
        Ok(v) => v,
        Err(_) => unreached(),
    }
}

/// An accumulating pass over an explicit mutable counter and running sum,
/// advanced one value at a time.
pub fn p1_sol5() -> (r: u64)
    ensures
        r == sum_multiples_below(three_five(), 1000),
        r == 233168,
{
    let mut s: u64 = 0;
    let mut v: u64 = 0;
    while v < 999
        invariant
            0 <= v <= 999,
            s == sum_multiples_below(three_five(), v as int + 1),
        decreases 999 - v,
    {
        proof {
            lemma_sum_below_bounds(three_five(), v as int + 1);
            lemma_triangle_monotonic(v as int, 999);
            assert(triangle(999) == 499500);
            lemma_limit_excluded(three_five(), v as int + 1);
        }
        v = v + 1;
        if is_three_five_multiple(v) {
            s = s + v;
        }
    }
    proof {
        lemma_canonical_answer();
    }
    s
}

/// The generator advanced by the caller's own loop, reading the running sum
/// after every step; an explicit-state rendering of a stateful counter.
pub fn p1_sol6() -> (r: u64)
    ensures
        r == sum_multiples_below(three_five(), 1000),
        r == 233168,
{
    let mut gen = Euler::new();
    let mut result: u64 = 0;
    let mut i: u64 = 0;
    while i < 999
        invariant
            0 <= i <= 999,
            gen.wf(),
            gen.v == i,
            gen.s == sum_multiples_below(three_five(), i as int + 1),
            i > 0 ==> result == gen.s,
        decreases 999 - i,
    {
        proof {
            lemma_limit_excluded(three_five(), i as int + 1);
        }
        gen.advance();
        result = gen.value();
        i = i + 1;
    }
    proof {
        lemma_canonical_answer();
    }
    result
}

/// The iterator rendering: each `next` yields the sum including the value
/// just considered; the thousandth yield is the answer.
pub fn p1_sol7() -> (r: u64)
    ensures
        r == sum_multiples_below(three_five(), 1000),
        r == 233168,
{
    let mut gen = Euler::new();
    let mut last: u64 = 0;
    let mut i: u64 = 0;
    while i < 1000
        invariant
            0 <= i <= 1000,
            gen.wf(),
            gen.v == i,
            gen.s == sum_multiples_below(three_five(), i as int),
            i > 0 ==> last == gen.s,
        decreases 1000 - i,
    {
        proof {
            lemma_limit_excluded(three_five(), i as int);
        }
        last = gen.next();
        i = i + 1;
    }
    proof {
        lemma_canonical_answer();
    }
    last
}

/// The mutate-then-read pair on the generator: advance it through the whole
/// range first, read the accumulated sum once at the end.
pub fn p1_sol8() -> (r: u64)
    ensures
        r == sum_multiples_below(three_five(), 1000),
        r == 233168,
{
    let mut gen = Euler::new();
    let mut i: u64 = 0;
    while i < 999
        invariant
            0 <= i <= 999,
            gen.wf(),
            gen.v == i,
            gen.s == sum_multiples_below(three_five(), i as int + 1),
        decreases 999 - i,
    {
        proof {
            lemma_limit_excluded(three_five(), i as int + 1);
        }
        gen.advance();
        i = i + 1;
    }
    proof {
        lemma_canonical_answer();
    }
    gen.value()
}

} // verus!
