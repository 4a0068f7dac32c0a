//! Error taxonomy of the terrain pipeline.

use vstd::prelude::*;

verus! {

/// A fatal pre-flight failure: the configuration cannot describe a terrain
/// (non-positive world size or frequency, zero grid resolution or octave
/// count, or a resolution too large for 32-bit mesh indices). Detected
/// before any sampling; nothing is partially built.
///
/// Local numeric degeneracy during evaluation is deliberately *not* an
/// error: a non-finite height collapses to an up-pointing normal at the
/// affected vertices only.
#[derive(Clone, Copy, PartialEq, Eq, Structural, Debug)]
pub enum TerrainError {
    InvalidParameter,
}

} // verus!
