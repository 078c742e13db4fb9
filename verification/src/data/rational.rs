//! Rational numbers, as used for timebases.
use vstd::prelude::*;
pub use num_rational::{Ratio, Rational32, Rational64};

verus! {

/// Rational numbers of the `num-rational` crate, carried through unchanged.
#[verifier::external_type_specification]
#[verifier::external_body]
#[verifier::reject_recursive_types(T)]
pub struct ExRatio<T>(num_rational::Ratio<T>);

} // verus!
