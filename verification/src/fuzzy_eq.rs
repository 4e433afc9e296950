//! Approximate equality.
//!
//! Every comparison in the geometry stack follows a chain of rounded
//! fixed-point operations, so equality is approximate throughout: two values
//! agree when each scalar they hold is within [`crate::scalar::EPSILON`] of
//! its counterpart. The trait carries its own specification function so that
//! callers know exactly what a `true` answer means.

use vstd::prelude::*;
use crate::scalar::{ffuzzy, fx_fuzzy};

verus! {

pub trait FuzzyEq<T> {
    /// What approximate equality means for this type.
    spec fn fuzzy_spec(&self, other: &T) -> bool;

    fn fuzzy_eq(&self, other: &T) -> (r: bool)
        ensures
            r == self.fuzzy_spec(other),
    ;
}

impl FuzzyEq<i64> for i64 {
    open spec fn fuzzy_spec(&self, other: &i64) -> bool {
        fx_fuzzy(*self as int, *other as int)
    }

    fn fuzzy_eq(&self, other: &i64) -> (r: bool) {
        ffuzzy(*self, *other)
    }
}

} // verus!
