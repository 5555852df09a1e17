// Sums of the positive integers below an exclusive bound that are divisible
// by at least one base of a given set, proved against a single mathematical
// definition: a closed-form inclusion-exclusion formula, a linear scan, and
// several stateful-generator renderings of the same computation.

pub mod closed_form;
pub mod generator;
pub mod model;
pub mod scan;
pub mod solutions;

pub use closed_form::lemma_canonical_answer;
pub use closed_form::lemma_closed_form_matches_scan;
pub use closed_form::sum_multiples_of_two_below;
pub use generator::Euler;
pub use model::sum_multiples_below;
pub use model::three_five;
pub use scan::sum_multiples;
pub use scan::sum_multiples_scan;
pub use scan::Error;
pub use solutions::p1_sol1;
pub use solutions::p1_sol2;
pub use solutions::p1_sol3;
pub use solutions::p1_sol4;
pub use solutions::p1_sol5;
pub use solutions::p1_sol6;
pub use solutions::p1_sol7;
pub use solutions::p1_sol8;
