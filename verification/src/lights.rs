//! Point lights: a zero-size source with a position and an intensity.

use vstd::prelude::*;
use crate::color::{Color, cfuzzy, col};
use crate::fuzzy_eq::FuzzyEq;
use crate::tuple::{Tuple, qfuzzy, tup};

verus! {

#[derive(Clone, Copy, Debug)]
pub struct PointLight {
    pub position: Tuple,
    pub intensity: Color,
}

impl PointLight {
    pub fn new(position: Tuple, intensity: Color) -> (r: Self)
        ensures
            r.position == position,
            r.intensity == intensity,
    {
        PointLight { position, intensity }
    }
}

impl FuzzyEq<PointLight> for PointLight {
    open spec fn fuzzy_spec(&self, other: &PointLight) -> bool {
        qfuzzy(tup(self.position), tup(other.position)) && cfuzzy(
            col(self.intensity),
            col(other.intensity),
        )
    }

    fn fuzzy_eq(&self, other: &PointLight) -> (r: bool) {
        self.position.fuzzy_eq(&other.position) && self.intensity.fuzzy_eq(&other.intensity)
    }
}

} // verus!
