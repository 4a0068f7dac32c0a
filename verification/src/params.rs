//! Terrain configuration: an immutable value shared by field assembly and
//! grid sampling.

use vstd::prelude::*;
use crate::error::TerrainError;
use crate::fx::{
    Fx, Fx2, FX_ONE, fx_fin, spec_fx_div, spec_fx_from_int, spec_fx2_normalize, fx_div,
};

verus! {

/// The largest grid resolution the sampler accepts: with `res` at most
/// 16383, the vertex count `(res + 1)^2` and the index count `6 * res^2`
/// stay well within 32-bit address arithmetic and the mesh index buffer.
pub const MAX_RES: u32 = 16383;

/// Immutable terrain configuration.
#[derive(Clone, Copy, PartialEq, Eq, Structural, Debug)]
pub struct TerrainParams {
    /// World size in meters (positive).
    pub size: Fx,
    /// Grid resolution: quads per side (positive), giving `(res + 1)^2`
    /// vertices.
    pub res: u32,
    /// Vertical scale in meters (baked into the assembled field, not
    /// reapplied by the sampler).
    pub amp: Fx,
    /// Base frequency (positive; smaller means broader features).
    pub freq: Fx,
    /// Heading of the linear ridge features (callers normalize before
    /// storing).
    pub line_dir: Fx2,
    /// Seed of the pseudo-random noise generators.
    pub seed: u32,
}

/// A configuration the pipeline accepts: positive world size and frequency,
/// and a resolution that is positive and fits 32-bit indexing.
pub open spec fn spec_params_valid(p: TerrainParams) -> bool {
    &&& p.size.fin
    &&& p.size.raw > 0
    &&& 1 <= p.res <= MAX_RES
    &&& p.freq.fin
    &&& p.freq.raw > 0
}

/// The demonstration configuration: a 3000 m icy plain of 512 quads per
/// side, 12 m relief, a base wavelength of 600 m, and ridge lines headed
/// along the normalized `(0.8, 0.2)` direction.
pub open spec fn spec_europa_demo() -> TerrainParams {
    TerrainParams {
        size: spec_fx_from_int(3000),
        res: 512,
        amp: spec_fx_from_int(12),
        freq: spec_fx_div(fx_fin(FX_ONE as int), spec_fx_from_int(600)),
        line_dir: spec_fx2_normalize(
            Fx2 {
                x: spec_fx_div(spec_fx_from_int(4), spec_fx_from_int(5)),
                y: spec_fx_div(spec_fx_from_int(1), spec_fx_from_int(5)),
            },
        ),
        seed: 1337,
    }
}

impl TerrainParams {
    /// Validated construction: rejects, before anything is sampled, a
    /// configuration with non-positive size or frequency, a zero
    /// resolution, or a resolution too large for 32-bit indices.
    pub fn new(size: Fx, res: u32, amp: Fx, freq: Fx, line_dir: Fx2, seed: u32) -> (r: Result<
        TerrainParams,
        TerrainError,
    >)
        ensures
            spec_params_valid(TerrainParams { size, res, amp, freq, line_dir, seed }) <==> r
                == Ok::<TerrainParams, TerrainError>(
                TerrainParams { size, res, amp, freq, line_dir, seed },
            ),
            !spec_params_valid(TerrainParams { size, res, amp, freq, line_dir, seed }) <==> r
                == Err::<TerrainParams, TerrainError>(TerrainError::InvalidParameter),
    {
        if size.fin && size.raw > 0 && 1 <= res && res <= MAX_RES && freq.fin && freq.raw > 0 {
            Ok(TerrainParams { size, res, amp, freq, line_dir, seed })
        } else {
            Err(TerrainError::InvalidParameter)
        }
    }

    /// The demonstration configuration (see [`spec_europa_demo`]); always
    /// valid.
    pub fn europa_demo() -> (r: TerrainParams)
        ensures
            r == spec_europa_demo(),
            spec_params_valid(r),
    {
        let size: Fx = Fx::from_int(3000);
        let amp: Fx = Fx::from_int(12);
        let freq: Fx = fx_div(Fx::one(), Fx::from_int(600));
        let raw_dir: Fx2 = Fx2 {
            x: fx_div(Fx::from_int(4), Fx::from_int(5)),
            y: fx_div(Fx::from_int(1), Fx::from_int(5)),
        };
        let line_dir: Fx2 = raw_dir.normalize();
        proof {
            vstd::arithmetic::div_mod::lemma_fundamental_div_mod_converse(
                65536int * 65536int,
                39321600,
                109,
                8912896,
            );
            assert(spec_fx_div(fx_fin(FX_ONE as int), spec_fx_from_int(600)) == fx_fin(109));
        }
        TerrainParams { size, res: 512, amp, freq, line_dir, seed: 1337 }
    }
}

} // verus!
