//! Coordinate-space combinators: domain warping and directional anisotropy.

use vstd::prelude::*;
use crate::fx::{
    Fx, Fx2, FX_ONE, fx_fin, fx_representable, iabs, spec_fx_add, spec_fx_mul, spec_fx_div,
    spec_fx_neg, fx_add, fx_mul, fx_div, fx_neg, lemma_fx_mul_contract, lemma_fx_div_unit,
    lemma_fx_mul_zero, lemma_fx_mul_one, lemma_fx_mul_neg_one, lemma_fx_add_zero,
};
use crate::height::HeightSource;
use crate::noise::{Perlin, spec_noise, lemma_noise_bounded};

verus! {

/// Accumulator of the two-channel displacement loop: the two weighted sums,
/// the total weight, the current sample point and octave weight.
pub struct WarpState {
    pub sumx: Fx,
    pub sumz: Fx,
    pub wsum: Fx,
    pub px: Fx,
    pub pz: Fx,
    pub w: Fx,
}

/// State of the displacement accumulation after `k` octaves. The two
/// channels take decorrelated samples of the same generator: the X channel
/// samples `(px, pz)`, the Z channel the swapped coordinates `(pz, px)`.
pub open spec fn spec_warp_state(seed: u32, lac: Fx, gain: Fx, x0: Fx, z0: Fx, k: nat) -> WarpState
    decreases k,
{
    if k == 0 {
        WarpState {
            sumx: fx_fin(0),
            sumz: fx_fin(0),
            wsum: fx_fin(0),
            px: x0,
            pz: z0,
            w: fx_fin(FX_ONE as int),
        }
    } else {
        let s = spec_warp_state(seed, lac, gain, x0, z0, (k - 1) as nat);
        WarpState {
            sumx: spec_fx_add(s.sumx, spec_fx_mul(s.w, spec_noise(seed, s.px, s.pz))),
            sumz: spec_fx_add(s.sumz, spec_fx_mul(s.w, spec_noise(seed, s.pz, s.px))),
            wsum: spec_fx_add(s.wsum, s.w),
            px: spec_fx_mul(s.px, lac),
            pz: spec_fx_mul(s.pz, lac),
            w: spec_fx_mul(s.w, gain),
        }
    }
}

/// The domain-warped field: a two-channel fractal displacement, each channel
/// the weighted noise average scaled by `warp_amp`, added to the query point
/// before the source field is read.
pub open spec fn spec_warp<S: HeightSource>(
    src: S,
    seed: u32,
    warp_amp: Fx,
    warp_freq: Fx,
    octaves: u32,
    lac: Fx,
    gain: Fx,
    x: Fx,
    z: Fx,
) -> Fx {
    let s = spec_warp_state(
        seed,
        lac,
        gain,
        spec_fx_mul(x, warp_freq),
        spec_fx_mul(z, warp_freq),
        octaves as nat,
    );
    let wx = spec_fx_mul(spec_fx_div(s.sumx, s.wsum), warp_amp);
    let wz = spec_fx_mul(spec_fx_div(s.sumz, s.wsum), warp_amp);
    src.spec_height(spec_fx_add(x, wx), spec_fx_add(z, wz))
}

/// Distorts the input coordinates of `source` by a fractal displacement
/// field, decoupling large-scale shape from fine-scale placement.
pub struct Warp2D<S> {
    pub source: S,
    pub perlin: Perlin,
    pub warp_amp: Fx,
    pub warp_freq: Fx,
    pub octaves: u32,
    pub lacunarity: Fx,
    pub gain: Fx,
}

impl<S: HeightSource> HeightSource for Warp2D<S> {
    open spec fn spec_height(&self, x: Fx, z: Fx) -> Fx {
        spec_warp(
            self.source,
            self.perlin.seed,
            self.warp_amp,
            self.warp_freq,
            self.octaves,
            self.lacunarity,
            self.gain,
            x,
            z,
        )
    }

    fn height_at(&self, x: Fx, z: Fx) -> (r: Fx)
        ensures
            r == self.spec_height(x, z),
    {
        let mut sumx: Fx = Fx::zero();
        let mut sumz: Fx = Fx::zero();
        let mut wsum: Fx = Fx::zero();
        let mut px: Fx = fx_mul(x, self.warp_freq);
        let mut pz: Fx = fx_mul(z, self.warp_freq);
        let mut w: Fx = Fx::one();
        let mut i: u32 = 0;
        while i < self.octaves
            invariant
                i <= self.octaves,
                (WarpState { sumx, sumz, wsum, px, pz, w }) == spec_warp_state(
                    self.perlin.seed,
                    self.lacunarity,
                    self.gain,
                    spec_fx_mul(x, self.warp_freq),
                    spec_fx_mul(z, self.warp_freq),
                    i as nat,
                ),
            decreases self.octaves - i,
        {
            let nx: Fx = self.perlin.get(px, pz);
            let nz: Fx = self.perlin.get(pz, px);
            sumx = fx_add(sumx, fx_mul(w, nx));
            sumz = fx_add(sumz, fx_mul(w, nz));
            wsum = fx_add(wsum, w);
            px = fx_mul(px, self.lacunarity);
            pz = fx_mul(pz, self.lacunarity);
            w = fx_mul(w, self.gain);
            i = i + 1;
        }
        let wx: Fx = fx_mul(fx_div(sumx, wsum), self.warp_amp);
        let wz: Fx = fx_mul(fx_div(sumz, wsum), self.warp_amp);
        self.source.height_at(fx_add(x, wx), fx_add(z, wz))
    }
}

/// The oriented reprojection of a point: `u` along the tangent `dir`, `v`
/// along the companion vector `(-dir.y, -dir.x)` (deliberately not the
/// canonical 90-degree perpendicular; the pair only decides which axis is
/// "main" for the anisotropy), each scaled by its axis factor.
pub open spec fn spec_oriented<S: HeightSource>(
    src: S,
    dir: Fx2,
    main_scale: Fx,
    ortho_scale: Fx,
    x: Fx,
    z: Fx,
) -> Fx {
    let u = spec_fx_mul(
        spec_fx_add(spec_fx_mul(x, dir.x), spec_fx_mul(z, dir.y)),
        main_scale,
    );
    let v = spec_fx_mul(
        spec_fx_add(spec_fx_mul(x, spec_fx_neg(dir.y)), spec_fx_mul(z, spec_fx_neg(dir.x))),
        ortho_scale,
    );
    src.spec_height(u, v)
}

/// Reads `source` through an orthonormal basis aligned with the unit vector
/// `dir`, aligning directional terrain features along an arbitrary heading
/// instead of the coordinate axes.
pub struct Oriented<S> {
    pub source: S,
    pub dir: Fx2,
    pub main_scale: Fx,
    pub ortho_scale: Fx,
}

impl<S: HeightSource> HeightSource for Oriented<S> {
    open spec fn spec_height(&self, x: Fx, z: Fx) -> Fx {
        spec_oriented(self.source, self.dir, self.main_scale, self.ortho_scale, x, z)
    }

    fn height_at(&self, x: Fx, z: Fx) -> (r: Fx)
        ensures
            r == self.spec_height(x, z),
    {
        let t: Fx2 = self.dir;
        let u: Fx = fx_mul(fx_add(fx_mul(x, t.x), fx_mul(z, t.y)), self.main_scale);
        let v: Fx = fx_mul(
            fx_add(fx_mul(x, fx_neg(t.y)), fx_mul(z, fx_neg(t.x))),
            self.ortho_scale,
        );
        self.source.height_at(u, v)
    }
}

/// Invariants of the displacement accumulator: both channel sums stay within
/// the total weight in magnitude, and the total weight is finite, at most
/// `k` units, and at least one unit once an octave has run.
pub proof fn lemma_warp_state_bounded(seed: u32, lac: Fx, gain: Fx, x0: Fx, z0: Fx, k: nat)
    requires
        gain.fin,
        0 <= gain.raw <= FX_ONE,
        k <= 0xffff_ffff,
    ensures
        ({
            let s = spec_warp_state(seed, lac, gain, x0, z0, k);
            s.w.fin && 0 <= s.w.raw <= FX_ONE && s.wsum.fin && 0 <= s.wsum.raw <= k * (
            FX_ONE as int) && s.sumx.fin && iabs(s.sumx.raw as int) <= s.wsum.raw && s.sumz.fin
                && iabs(s.sumz.raw as int) <= s.wsum.raw && (k >= 1 ==> s.wsum.raw >= FX_ONE)
        }),
    decreases k,
{
    if k > 0 {
        lemma_warp_state_bounded(seed, lac, gain, x0, z0, (k - 1) as nat);
        let s = spec_warp_state(seed, lac, gain, x0, z0, (k - 1) as nat);
        lemma_noise_bounded(seed, s.px, s.pz);
        lemma_noise_bounded(seed, s.pz, s.px);
        lemma_fx_mul_contract(s.w, spec_noise(seed, s.px, s.pz));
        lemma_fx_mul_contract(s.w, spec_noise(seed, s.pz, s.px));
        lemma_fx_mul_contract(s.w, gain);
    }
}

/// A warp of zero amplitude is the identity: with `warp_amp == 0` the
/// displaced sample point is exactly the query point, so the warped field
/// agrees with reading the source directly, at every finite sample point.
pub proof fn lemma_warp_zero_amp_identity<S: HeightSource>(
    src: S,
    seed: u32,
    warp_freq: Fx,
    octaves: u32,
    lac: Fx,
    gain: Fx,
    x: Fx,
    z: Fx,
)
    requires
        octaves >= 1,
        gain.fin,
        0 <= gain.raw <= FX_ONE,
        x.fin,
        fx_representable(x.raw as int),
        z.fin,
        fx_representable(z.raw as int),
    ensures
        spec_warp(src, seed, fx_fin(0), warp_freq, octaves, lac, gain, x, z) == src.spec_height(
            x,
            z,
        ),
{
    let x0 = spec_fx_mul(x, warp_freq);
    let z0 = spec_fx_mul(z, warp_freq);
    lemma_warp_state_bounded(seed, lac, gain, x0, z0, octaves as nat);
    let s = spec_warp_state(seed, lac, gain, x0, z0, octaves as nat);
    lemma_fx_div_unit(s.sumx, s.wsum);
    lemma_fx_div_unit(s.sumz, s.wsum);
    lemma_fx_mul_zero(spec_fx_div(s.sumx, s.wsum));
    lemma_fx_mul_zero(spec_fx_div(s.sumz, s.wsum));
    lemma_fx_add_zero(x);
    lemma_fx_add_zero(z);
}

/// With the heading aligned to the +X axis and unit scales, the oriented
/// reprojection leaves `u == x` and `v == -z` exactly, so reading a field
/// through it matches direct evaluation with the Z axis negated.
pub proof fn lemma_oriented_axis_aligned<S: HeightSource>(src: S, x: Fx, z: Fx)
    requires
        x.fin,
        fx_representable(x.raw as int),
        z.fin,
        fx_representable(z.raw as int),
    ensures
        spec_oriented(
            src,
            (Fx2 { x: fx_fin(FX_ONE as int), y: fx_fin(0) }),
            fx_fin(FX_ONE as int),
            fx_fin(FX_ONE as int),
            x,
            z,
        ) == src.spec_height(x, spec_fx_neg(z)),
{
    lemma_fx_mul_one(x);
    lemma_fx_mul_zero(z);
    lemma_fx_add_zero(x);
    lemma_fx_mul_zero(x);
    lemma_fx_mul_neg_one(z);
    lemma_fx_add_zero(spec_fx_neg(z));
    lemma_fx_mul_one(spec_fx_neg(z));
}


/// Zero-amplitude warp, stated on the combinator itself: a `Warp2D` whose
/// `warp_amp` is zero reads exactly as its source field at every finite
/// sample point.
pub proof fn lemma_warp_height_zero_amp<S: HeightSource>(w: Warp2D<S>, x: Fx, z: Fx)
    requires
        w.warp_amp == fx_fin(0),
        w.octaves >= 1,
        w.gain.fin,
        0 <= w.gain.raw <= FX_ONE,
        x.fin,
        fx_representable(x.raw as int),
        z.fin,
        fx_representable(z.raw as int),
    ensures
        w.spec_height(x, z) == w.source.spec_height(x, z),
{
    lemma_warp_zero_amp_identity(
        w.source,
        w.perlin.seed,
        w.warp_freq,
        w.octaves,
        w.lacunarity,
        w.gain,
        x,
        z,
    );
}

/// Axis-aligned orientation, stated on the combinator itself: an `Oriented`
/// with the heading `(1, 0)` and unit scales reads its source at `(x, -z)`.
pub proof fn lemma_oriented_height_axis<S: HeightSource>(o: Oriented<S>, x: Fx, z: Fx)
    requires
        o.dir == (Fx2 { x: fx_fin(FX_ONE as int), y: fx_fin(0) }),
        o.main_scale == fx_fin(FX_ONE as int),
        o.ortho_scale == fx_fin(FX_ONE as int),
        x.fin,
        fx_representable(x.raw as int),
        z.fin,
        fx_representable(z.raw as int),
    ensures
        o.spec_height(x, z) == o.source.spec_height(x, spec_fx_neg(z)),
{
    lemma_oriented_axis_aligned(o.source, x, z);
}


} // verus!
