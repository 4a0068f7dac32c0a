//! Arithmetic combinators over height fields.
//!
//! Each combinator takes one or two child fields and is itself a field, so
//! composition nests arbitrarily (a closed algebra).

use vstd::prelude::*;
use crate::fx::{Fx, spec_fx_add, spec_fx_mul, fx_add, fx_mul};
use crate::height::HeightSource;

verus! {

/// Pointwise sum of two fields.
pub struct Add2<A, B> {
    pub a: A,
    pub b: B,
}

impl<A: HeightSource, B: HeightSource> HeightSource for Add2<A, B> {
    open spec fn spec_height(&self, x: Fx, z: Fx) -> Fx {
        spec_fx_add(self.a.spec_height(x, z), self.b.spec_height(x, z))
    }

    fn height_at(&self, x: Fx, z: Fx) -> (r: Fx)
        ensures
            r == self.spec_height(x, z),
    {
        fx_add(self.a.height_at(x, z), self.b.height_at(x, z))
    }
}

/// A field multiplied by a constant factor.
pub struct Scale<S> {
    pub s: S,
    pub scale: Fx,
}

impl<S: HeightSource> HeightSource for Scale<S> {
    open spec fn spec_height(&self, x: Fx, z: Fx) -> Fx {
        spec_fx_mul(self.s.spec_height(x, z), self.scale)
    }

    fn height_at(&self, x: Fx, z: Fx) -> (r: Fx)
        ensures
            r == self.spec_height(x, z),
    {
        fx_mul(self.s.height_at(x, z), self.scale)
    }
}

/// A field shifted by a constant offset.
pub struct Bias<S> {
    pub s: S,
    pub bias: Fx,
}

impl<S: HeightSource> HeightSource for Bias<S> {
    open spec fn spec_height(&self, x: Fx, z: Fx) -> Fx {
        spec_fx_add(self.s.spec_height(x, z), self.bias)
    }

    fn height_at(&self, x: Fx, z: Fx) -> (r: Fx)
        ensures
            r == self.spec_height(x, z),
    {
        fx_add(self.s.height_at(x, z), self.bias)
    }
}

} // verus!
