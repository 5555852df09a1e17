use multiples::scan::Error;
use multiples::{sum_multiples, sum_multiples_of_two_below, sum_multiples_scan};

#[test]
fn canonical_answer() {
    assert_eq!(sum_multiples(&vec![3, 5], 1000), Ok(233168));
}

#[test]
fn small_range_three_five() {
    // 3 + 5 + 6 + 9 = 23
    assert_eq!(sum_multiples(&vec![3, 5], 10), Ok(23));
}

#[test]
fn single_base_two() {
    // 2 + 4 + 6 + 8 = 20
    assert_eq!(sum_multiples(&vec![2], 10), Ok(20));
}

#[test]
fn empty_range() {
    assert_eq!(sum_multiples(&vec![3, 5], 1), Ok(0));
}

#[test]
fn limit_itself_is_excluded() {
    // only 5 counts: 10 equals the limit and stays out
    assert_eq!(sum_multiples(&vec![5], 10), Ok(5));
}

#[test]
fn repeated_calls_agree() {
    let bases = vec![3, 5];
    let first = sum_multiples(&bases, 1000);
    let second = sum_multiples(&bases, 1000);
    assert_eq!(first, second);
    assert_eq!(first, Ok(233168));
}

#[test]
fn zero_limit_is_refused() {
    assert_eq!(sum_multiples(&vec![3, 5], 0), Err(Error::InvalidArgument));
}

#[test]
fn empty_bases_are_refused() {
    assert_eq!(sum_multiples(&vec![], 10), Err(Error::InvalidArgument));
}

#[test]
fn zero_base_is_refused() {
    assert_eq!(sum_multiples(&vec![3, 0], 10), Err(Error::InvalidArgument));
}

#[test]
fn closed_form_matches_scan_small() {
    assert_eq!(sum_multiples_of_two_below(3, 5, 10), 23);
    assert_eq!(sum_multiples_scan(&vec![3, 5], 10), 23);
}

#[test]
fn closed_form_matches_scan_on_coprime_pairs() {
    for &(a, b) in &[(2, 3), (3, 5), (5, 7), (4, 9), (2, 1001)] {
        for limit in [1, 2, 10, 100, 1000] {
            assert_eq!(
                sum_multiples_of_two_below(a, b, limit),
                sum_multiples_scan(&vec![a, b], limit),
                "bases {} and {}, limit {}",
                a,
                b,
                limit
            );
        }
    }
}

#[test]
fn scan_handles_degenerate_limits() {
    assert_eq!(sum_multiples_scan(&vec![3, 5], 0), 0);
    assert_eq!(sum_multiples_scan(&vec![3, 5], 1), 0);
    assert_eq!(sum_multiples_scan(&vec![3, 5], 2), 0);
    assert_eq!(sum_multiples_scan(&vec![3, 5], 4), 3);
}

#[test]
fn unit_base_sums_the_whole_range() {
    // every n in [1, 10) is a multiple of 1
    assert_eq!(sum_multiples(&vec![1], 10), Ok(45));
}
