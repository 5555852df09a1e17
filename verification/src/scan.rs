use vstd::prelude::*;

use crate::model::{
    is_multiple_of_any, lemma_limit_excluded, lemma_sum_below_bounds, lemma_triangle_monotonic,
    lemma_triangle_step, multiple_term, sum_multiples_below, triangle,
};

verus! {

/// The one error of the library: inputs outside the contract's domain.
#[derive(Clone, Copy, Debug, PartialEq, Eq, Structural)]
pub enum Error {
    InvalidArgument,
}

/// The inputs the summation is defined for: a positive exclusive bound and a
/// non-empty set of positive bases.
pub open spec fn valid_inputs(bases: Seq<u64>, limit: int) -> bool {
    &&& limit >= 1
    &&& bases.len() >= 1
    &&& forall|i: int| 0 <= i < bases.len() ==> #[trigger] bases[i] >= 1
}

/// `true` when some base in `bases` divides `n`.
pub fn divisible_by_any(bases: &Vec<u64>, n: u64) -> (r: bool)
    requires
        forall|i: int| 0 <= i < bases@.len() ==> #[trigger] bases@[i] >= 1,
    ensures
        r == is_multiple_of_any(bases@, n as int),
{
    let mut i: usize = 0;
    while i < bases.len()
        invariant
            0 <= i <= bases@.len(),
            forall|j: int| 0 <= j < bases@.len() ==> #[trigger] bases@[j] >= 1,
            forall|j: int| 0 <= j < i ==> n as int % ((#[trigger] bases@[j]) as int) != 0,
        decreases bases@.len() - i,
    {
        if n % bases[i] == 0 {
            assert(is_multiple_of_any(bases@, n as int));
            return true;
        }
        i = i + 1;
    }
    false
}

/// Linear scan, the reference algorithm: walk `n` from 1 to `limit - 1` and
/// accumulate every `n` divisible by at least one base.
pub fn sum_multiples_scan(bases: &Vec<u64>, limit: u64) -> (r: u64)
    requires
        limit <= 0x1_0000_0000,
        forall|i: int| 0 <= i < bases@.len() ==> #[trigger] bases@[i] >= 1,
    ensures
        r == sum_multiples_below(bases@, limit as int),
{
    if limit == 0 {
        return 0;
    }
    let mut total: u64 = 0;
    let mut n: u64 = 1;
    while n < limit
        invariant
            1 <= n <= limit <= 0x1_0000_0000,
            forall|i: int| 0 <= i < bases@.len() ==> #[trigger] bases@[i] >= 1,
            total == sum_multiples_below(bases@, n as int),
        decreases limit - n,
    {
        proof {
            lemma_sum_below_bounds(bases@, n as int);
            lemma_triangle_step(n as int);
            lemma_triangle_monotonic(n as int, 0x1_0000_0000);
            assert(triangle(0x1_0000_0000) == 9223372039002259456);
            lemma_limit_excluded(bases@, n as int);
        }
        if divisible_by_any(bases, n) {
            total = total + n;
        }
        n = n + 1;
    }
    total
}

/// `true` when every base in `bases` is positive.
fn all_positive(bases: &Vec<u64>) -> (r: bool)
    ensures
        r == forall|i: int| 0 <= i < bases@.len() ==> #[trigger] bases@[i] >= 1,
{
    let mut i: usize = 0;
    while i < bases.len()
        invariant
            0 <= i <= bases@.len(),
            forall|j: int| 0 <= j < i ==> #[trigger] bases@[j] >= 1,
        decreases bases@.len() - i,
    {
        if bases[i] == 0 {
            return false;
        }
        i = i + 1;
    }
    true
}

/// The sum of all positive integers strictly below `limit` that are divisible
/// by at least one element of `bases`, after validating the inputs: a zero
/// `limit`, an empty `bases`, or a zero base is refused as `InvalidArgument`.
pub fn sum_multiples(bases: &Vec<u64>, limit: u64) -> (r: Result<u64, Error>)
    requires
        limit <= 0x1_0000_0000,
    ensures
        r matches Ok(v) ==> valid_inputs(bases@, limit as int) && v == sum_multiples_below(
            bases@,
            limit as int,
        ),
        r matches Err(e) ==> !valid_inputs(bases@, limit as int) && e == Error::InvalidArgument,
{
    if limit == 0 || bases.len() == 0 || !all_positive(bases) {
        return Err(Error::InvalidArgument);
    }
    Ok(sum_multiples_scan(bases, limit))
}

} // verus!
