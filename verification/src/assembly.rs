//! Field assembly: the fixed composition recipe that wires the noise
//! primitives and combinators into the final terrain field.
//!
//! The recipe layers a broad low-frequency fractal base with a
//! higher-frequency anisotropic ridged field reoriented along the configured
//! heading, sums the two, distorts the sum with a fractal domain warp, and
//! finally rescales and rebases the result against the sea-level baseline.
//! Each primitive receives the seed or a seed variant decorrelated by an odd
//! constant, so the noise layers do not correlate with one another.

use vstd::prelude::*;
use crate::comb::{Add2, Bias, Scale};
use crate::fx::{
    Fx, FX_ONE, fx_fin, spec_fx_div, spec_fx_mul, spec_fx_neg, spec_fx_from_int, fx_div, fx_mul,
    fx_neg,
};
use crate::height::HeightSource;
use crate::noise::{Perlin, PerlinFbm, PerlinRidged};
use crate::params::{TerrainParams, spec_params_valid, spec_europa_demo};
use crate::warp::{Oriented, Warp2D};

verus! {

/// The concrete type of the assembled demonstration field: base plus
/// oriented ridges, domain-warped, rescaled and rebased.
pub type EuropaField = Bias<Scale<Warp2D<Add2<PerlinFbm, Oriented<PerlinRidged>>>>>;

/// A terrain bundle ready for hand-off to a rendering collaborator: the
/// configuration together with the assembled field it was built for.
pub struct TerrainPlugin<S> {
    pub params: TerrainParams,
    pub height: S,
}

impl<S: HeightSource> TerrainPlugin<S> {
    /// Bundle a configuration with a field.
    pub fn with(params: TerrainParams, height: S) -> (r: TerrainPlugin<S>)
        ensures
            r.params == params,
            r.height == height,
    {
        TerrainPlugin { params, height }
    }
}

/// The demonstration field, spelled out value by value. The base fractal
/// runs at the 600 m wavelength; the ridged layer runs 2.5 times finer with
/// doubled z-anisotropy and is reoriented along the demo heading squeezed to
/// 0.35 across; the warp displaces by up to 40 m at 0.6 of the base
/// frequency; the final bias lowers the baseline by 0.1.
pub open spec fn spec_europa_default_field() -> EuropaField {
    Bias {
        s: Scale {
            s: Warp2D {
                source: Add2 {
                    a: PerlinFbm {
                        perlin: Perlin { seed: 1337 },
                        freq: spec_fx_div(fx_fin(FX_ONE as int), spec_fx_from_int(600)),
                        octaves: 5,
                        lacunarity: spec_fx_from_int(2),
                        gain: fx_fin(32768),
                        amplitude: fx_fin(FX_ONE as int),
                    },
                    b: Oriented {
                        source: PerlinRidged {
                            perlin: Perlin { seed: 1337u32 ^ 0xB529_7A4D },
                            freq: spec_fx_mul(
                                spec_fx_div(fx_fin(FX_ONE as int), spec_fx_from_int(600)),
                                fx_fin(163840),
                            ),
                            octaves: 4,
                            lacunarity: spec_fx_div(spec_fx_from_int(11), spec_fx_from_int(5)),
                            gain: fx_fin(49152),
                            amplitude: fx_fin(FX_ONE as int),
                            z_anisotropy: spec_fx_from_int(2),
                        },
                        dir: spec_europa_demo().line_dir,
                        main_scale: fx_fin(FX_ONE as int),
                        ortho_scale: spec_fx_div(spec_fx_from_int(7), spec_fx_from_int(20)),
                    },
                },
                perlin: Perlin { seed: 1337u32 ^ 0x9E37_79B9 },
                warp_amp: spec_fx_from_int(40),
                warp_freq: spec_fx_mul(
                    spec_fx_div(fx_fin(FX_ONE as int), spec_fx_from_int(600)),
                    spec_fx_div(spec_fx_from_int(3), spec_fx_from_int(5)),
                ),
                octaves: 3,
                lacunarity: spec_fx_div(spec_fx_from_int(21), spec_fx_from_int(10)),
                gain: spec_fx_div(spec_fx_from_int(11), spec_fx_from_int(20)),
            },
            scale: fx_fin(FX_ONE as int),
        },
        bias: spec_fx_neg(spec_fx_div(fx_fin(FX_ONE as int), spec_fx_from_int(10))),
    }
}

impl TerrainPlugin<EuropaField> {
    /// The demonstration terrain: the demo configuration together with the
    /// assembled demonstration field (see [`spec_europa_default_field`]).
    pub fn europa_default() -> (r: TerrainPlugin<EuropaField>)
        ensures
            r.params == spec_europa_demo(),
            spec_params_valid(r.params),
            r.height == spec_europa_default_field(),
    {
        let params: TerrainParams = TerrainParams::europa_demo();
        let seed: u32 = 1337;
        let base: PerlinFbm = PerlinFbm {
            perlin: Perlin::new(seed),
            freq: fx_div(Fx::one(), Fx::from_int(600)),
            octaves: 5,
            lacunarity: Fx::from_int(2),
            gain: Fx::from_raw(32768),
            amplitude: Fx::one(),
        };
        let ridged: PerlinRidged = PerlinRidged {
            perlin: Perlin::new(seed ^ 0xB529_7A4D),
            freq: fx_mul(fx_div(Fx::one(), Fx::from_int(600)), Fx::from_raw(163840)),
            octaves: 4,
            lacunarity: fx_div(Fx::from_int(11), Fx::from_int(5)),
            gain: Fx::from_raw(49152),
            amplitude: Fx::one(),
            z_anisotropy: Fx::from_int(2),
        };
        let oriented: Oriented<PerlinRidged> = Oriented {
            source: ridged,
            dir: params.line_dir,
            main_scale: Fx::one(),
            ortho_scale: fx_div(Fx::from_int(7), Fx::from_int(20)),
        };
        let warp: Warp2D<Add2<PerlinFbm, Oriented<PerlinRidged>>> = Warp2D {
            source: Add2 { a: base, b: oriented },
            perlin: Perlin::new(seed ^ 0x9E37_79B9),
            warp_amp: Fx::from_int(40),
            warp_freq: fx_mul(
                fx_div(Fx::one(), Fx::from_int(600)),
                fx_div(Fx::from_int(3), Fx::from_int(5)),
            ),
            octaves: 3,
            lacunarity: fx_div(Fx::from_int(21), Fx::from_int(10)),
            gain: fx_div(Fx::from_int(11), Fx::from_int(20)),
        };
        let combined: EuropaField = Bias {
            s: Scale { s: warp, scale: Fx::one() },
            bias: fx_neg(fx_div(Fx::one(), Fx::from_int(10))),
        };
        TerrainPlugin { params, height: combined }
    }
}

} // verus!
