use vstd::prelude::*;

use crate::model::{
    is_multiple_of_any, lemma_multiple_pair, lemma_triangle_monotonic, lemma_triangle_step,
    multiple_term, sum_multiples_below, three_five, triangle,
};

verus! {

/// Whether `v` is a multiple of 3 or of 5, computed through the product
/// trick: `(v % 3) * (v % 5)` is zero exactly when one factor is.
pub fn is_three_five_multiple(v: u64) -> (r: bool)
    ensures
        r == is_multiple_of_any(three_five(), v as int),
{
    let m3 = v % 3;
    let m5 = v % 5;
    proof {
        lemma_multiple_pair(3, 5, v as int);
        assert((m3 as int) * (m5 as int) < 1 ==> m3 == 0 || m5 == 0) by (nonlinear_arith)
            requires
                0 <= m3 < 3,
                0 <= m5 < 5,
        ;
        assert((m3 == 0 || m5 == 0) ==> (m3 as int) * (m5 as int) == 0) by (nonlinear_arith);
        assert((m3 as int) * (m5 as int) <= 8) by (nonlinear_arith)
            requires
                0 <= m3 < 3,
                0 <= m5 < 5,
        ;
    }
    m3 * m5 < 1
}

/// A stateful generator for the running sum of the multiples of 3 or 5:
/// `v` counts the steps taken, `s` accumulates the multiples considered so
/// far. `advance` moves to the next value, `value` reads the sum, and the
/// two are kept syntactically distinct on purpose; `next` does both, taking
/// the values in the consider-then-step order instead.
pub struct Euler {
    pub s: u64,
    pub v: u64,
}

impl Euler {
    /// The sum never exceeds the sum 1 + ... + v of everything considered,
    /// which keeps the accumulator far from overflow while `v` stays below
    /// the cap.
    pub open spec fn wf(self) -> bool {
        &&& self.s <= triangle(self.v as int)
        &&& self.v <= 0xFFFF_FFFF
    }

    /// A fresh generator: nothing considered, nothing accumulated.
    pub fn new() -> (e: Euler)
        ensures
            e.s == 0,
            e.v == 0,
            e.wf(),
    {
        Euler { s: 0, v: 0 }
    }

    /// Consider the current value, then move past it; returns the sum with
    /// the current value's contribution included.
    pub fn next(&mut self) -> (r: u64)
        requires
            old(self).wf(),
            old(self).v < 0xFFFF_FFFF,
        ensures
            final(self).v == old(self).v + 1,
            final(self).s == old(self).s + multiple_term(three_five(), old(self).v as int),
            r == final(self).s,
            final(self).wf(),
    {
        proof {
            lemma_triangle_step(old(self).v as int + 1);
            lemma_triangle_monotonic(old(self).v as int, 0xFFFF_FFFF);
            assert(triangle(0xFFFF_FFFF) == 9223372034707292160);
        }
        if is_three_five_multiple(self.v) {
            self.s = self.s + self.v;
        }
        self.v = self.v + 1;
        self.s
    }

    /// Move to the next value and fold it into the sum when it is a
    /// multiple; the mutation, kept apart from the read in `value`.
    pub fn advance(&mut self)
        requires
            old(self).wf(),
            old(self).v < 0xFFFF_FFFF,
        ensures
            final(self).v == old(self).v + 1,
            final(self).s == old(self).s + multiple_term(three_five(), old(self).v as int + 1),
            final(self).wf(),
    {
        proof {
            lemma_triangle_step(old(self).v as int + 1);
            lemma_triangle_monotonic(old(self).v as int, 0xFFFF_FFFF);
            assert(triangle(0xFFFF_FFFF) == 9223372034707292160);
        }
        self.v = self.v + 1;
        if is_three_five_multiple(self.v) {
            self.s = self.s + self.v;
        }
    }

    /// Read the accumulated sum; no state changes.
    pub fn value(&self) -> (r: u64)
        ensures
            r == self.s,
    {
        self.s
    }
}

} // verus!
