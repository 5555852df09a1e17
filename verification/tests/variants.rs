use multiples::generator::Euler;
use multiples::solutions::{
    p1_sol1, p1_sol2, p1_sol3, p1_sol4, p1_sol5, p1_sol6, p1_sol7, p1_sol8,
};

#[test]
fn all_variants_give_the_canonical_answer() {
    assert_eq!(p1_sol1(), 233168);
    assert_eq!(p1_sol2(), 233168);
    assert_eq!(p1_sol3(), 233168);
    assert_eq!(p1_sol4(), 233168);
    assert_eq!(p1_sol5(), 233168);
    assert_eq!(p1_sol6(), 233168);
    assert_eq!(p1_sol7(), 233168);
    assert_eq!(p1_sol8(), 233168);
}

#[test]
fn generator_next_yields_running_sums() {
    let mut gen = Euler::new();
    // values 0..4 considered one by one: 0 and 3 count
    assert_eq!(gen.next(), 0);
    assert_eq!(gen.next(), 0);
    assert_eq!(gen.next(), 0);
    assert_eq!(gen.next(), 3);
    assert_eq!(gen.next(), 3);
    assert_eq!(gen.next(), 8);
}

#[test]
fn generator_next_thousand_times() {
    let mut gen = Euler::new();
    let mut last = 0;
    for _ in 0..1000 {
        last = gen.next();
    }
    assert_eq!(last, 233168);
}

#[test]
fn generator_advance_then_value() {
    let mut gen = Euler::new();
    for _ in 0..999 {
        gen.advance();
    }
    assert_eq!(gen.value(), 233168);
}

#[test]
fn value_reads_without_mutating() {
    let mut gen = Euler::new();
    gen.advance();
    gen.advance();
    gen.advance();
    assert_eq!(gen.value(), 3);
    assert_eq!(gen.value(), 3);
}
