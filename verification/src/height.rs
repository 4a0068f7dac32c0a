//! The scalar-field abstraction: a pure height function on the ground plane.

use vstd::prelude::*;
use crate::fx::Fx;

verus! {

/// A continuous height function on the XZ plane.
///
/// This is the extension point of the library: any type may supply a new
/// primitive or combinator by implementing the single evaluation method and
/// saying, through `spec_height`, exactly what it computes. Evaluation is
/// pure: the result is a function of the receiver and the sample point alone,
/// so a field may be shared read-only between consumers.
pub trait HeightSource {
    /// The mathematical value of the field at `(x, z)`.
    spec fn spec_height(&self, x: Fx, z: Fx) -> Fx;

    /// Evaluate the field at `(x, z)`; returns exactly the specified value.
    fn height_at(&self, x: Fx, z: Fx) -> (r: Fx)
        ensures
            r == self.spec_height(x, z),
    ;
}

/// A field holding one value everywhere; the simplest primitive, and the
/// natural stand-in when a flat reference surface is wanted.
pub struct Constant {
    pub value: Fx,
}

impl HeightSource for Constant {
    open spec fn spec_height(&self, x: Fx, z: Fx) -> Fx {
        self.value
    }

    fn height_at(&self, x: Fx, z: Fx) -> (r: Fx)
        ensures
            r == self.spec_height(x, z),
    {
        self.value
    }
}

} // verus!
