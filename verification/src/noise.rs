//! Gradient-noise primitives.
//!
//! [`Perlin`] is a seeded lattice gradient noise: each corner of the unit
//! cell around a sample point picks one of eight unit-ish gradients through
//! an integer bit-mixing hash of the seed and the corner coordinates; the
//! four corner dot products are blended with the classic quintic fade curve.
//! The result is scaled to span roughly `[-1, 1]` and clamped to it, so the
//! bound is exact by construction. Two generators with different seeds are
//! decorrelated by the hash; the same seed always reproduces the same field.
//!
//! [`PerlinFbm`] and [`PerlinRidged`] accumulate octaves of this noise with
//! per-octave frequency and weight stepping, normalized by the total weight.

use vstd::prelude::*;
use vstd::arithmetic::div_mod::*;
use vstd::arithmetic::mul::*;
use crate::error::TerrainError;
use crate::fx::{
    Fx, FX_ONE, fx_fin, fx_nonfin, iabs, tdiv, lemma_mul_le, lemma_tdiv_mag,
    lemma_tdiv_mul_bound, fx_floor_split, spec_fx_add, spec_fx_sub, spec_fx_abs, spec_fx_mul,
    spec_fx_div, spec_fx_clamp, fx_add, fx_sub, fx_abs, fx_mul, fx_div, fx_clamp,
    lemma_fx_mul_contract, lemma_fx_div_unit, lemma_fx_mul_amp,
};
use crate::height::HeightSource;

verus! {

/// One round of 64-bit integer bit mixing (xor-shift and multiply, taken
/// modulo 2^64), used to hash lattice corners.
pub open spec fn spec_mix64(v: u64) -> u64 {
    let a: u64 = v ^ (v >> 33);
    let b: u64 = (((a as u128) * 0xff51_afd7_ed55_8ccdu128) % 0x1_0000_0000_0000_0000int)
        as u64;
    let c: u64 = b ^ (b >> 33);
    let d: u64 = (((c as u128) * 0xc4ce_b9fe_1a85_ec53u128) % 0x1_0000_0000_0000_0000int)
        as u64;
    d ^ (d >> 33)
}

pub(crate) fn mix64(v: u64) -> (r: u64)
    ensures
        r == spec_mix64(v),
{
    let a: u64 = v ^ (v >> 33);
    let b: u64 = (((a as u128) * 0xff51_afd7_ed55_8ccdu128) % 0x1_0000_0000_0000_0000u128)
        as u64;
    let c: u64 = b ^ (b >> 33);
    let d: u64 = (((c as u128) * 0xc4ce_b9fe_1a85_ec53u128) % 0x1_0000_0000_0000_0000u128)
        as u64;
    d ^ (d >> 33)
}

/// Gradient index (0..8) of the lattice corner `(cx, cz)` under `seed`.
pub open spec fn spec_corner_grad(seed: u32, cx: int, cz: int) -> u64 {
    let xu: u64 = (cx + 0x8000_0000_0000) as u64;
    let zu: u64 = (cz + 0x8000_0000_0000) as u64;
    spec_mix64(spec_mix64((seed as u64) ^ xu) ^ zu) % 8
}

pub(crate) fn corner_grad(seed: u32, cx: i64, cz: i64) -> (r: u64)
    requires
        -0x8000_0000_0000 <= cx <= 0x8000_0000_0000,
        -0x8000_0000_0000 <= cz <= 0x8000_0000_0000,
    ensures
        r == spec_corner_grad(seed, cx as int, cz as int),
        r < 8,
{
    let xu: u64 = (cx + 0x8000_0000_0000) as u64;
    let zu: u64 = (cz + 0x8000_0000_0000) as u64;
    let h: u64 = mix64(mix64((seed as u64) ^ xu) ^ zu);
    h % 8
}

/// Dot product of gradient `g` (0..8) with the corner offset `(dx, dz)`.
/// The eight gradients are, in order: `(1,1)`, `(-1,1)`, `(1,-1)`, `(-1,-1)`,
/// `(1,0)`, `(-1,0)`, `(0,1)`, `(0,-1)`.
pub open spec fn spec_grad_dot(g: u64, dx: int, dz: int) -> int {
    if g == 0 {
        dx + dz
    } else if g == 1 {
        dz - dx
    } else if g == 2 {
        dx - dz
    } else if g == 3 {
        -dx - dz
    } else if g == 4 {
        dx
    } else if g == 5 {
        -dx
    } else if g == 6 {
        dz
    } else {
        -dz
    }
}

pub(crate) fn grad_dot(g: u64, dx: i64, dz: i64) -> (r: i64)
    requires
        g < 8,
        -65536 <= dx <= 65536,
        -65536 <= dz <= 65536,
    ensures
        r == spec_grad_dot(g, dx as int, dz as int),
        -131072 <= r <= 131072,
{
    if g == 0 {
        dx + dz
    } else if g == 1 {
        dz - dx
    } else if g == 2 {
        dx - dz
    } else if g == 3 {
        -dx - dz
    } else if g == 4 {
        dx
    } else if g == 5 {
        -dx
    } else if g == 6 {
        dz
    } else {
        -dz
    }
}

/// Raw fixed-point product: `tdiv(a * b, 2^16)` for moderately sized inputs.
pub(crate) fn rmul(a: i64, b: i64) -> (r: i64)
    requires
        -0x80_0000_0000 <= a <= 0x80_0000_0000,
        -0x80_0000_0000 <= b <= 0x80_0000_0000,
    ensures
        r == tdiv(a * b, FX_ONE as int),
{
    proof {
        lemma_mul_le(a as int, b as int, 0x80_0000_0000, 0x80_0000_0000);
    }
    let p: i128 = (a as i128) * (b as i128);
    let neg: bool = p < 0;
    let m: u128 = if neg {
        (-p) as u128
    } else {
        p as u128
    };
    assert(m == iabs(a * b));
    let q: u128 = m / 65536;
    proof {
        lemma_div_is_ordered(m as int, 0x4000_0000_0000_0000_0000, 65536);
    }
    let qi: i64 = q as i64;
    if neg {
        -qi
    } else {
        qi
    }
}

/// The quintic fade weight `6t^5 - 15t^4 + 10t^3` of a fractional offset,
/// computed in fixed point and clamped into `[0, 1]`.
pub open spec fn spec_fade(t: int) -> int {
    let t2: int = tdiv(t * t, FX_ONE as int);
    let t3: int = tdiv(t2 * t, FX_ONE as int);
    let p1: int = tdiv(t * (6 * t - 983040), FX_ONE as int) + 655360;
    let f: int = tdiv(t3 * p1, FX_ONE as int);
    if f < 0 {
        0
    } else if f > 65536 {
        65536
    } else {
        f
    }
}

pub(crate) fn fade(t: i64) -> (r: i64)
    requires
        0 <= t <= 65536,
    ensures
        r == spec_fade(t as int),
        0 <= r <= 65536,
{
    proof {
        lemma_tdiv_mul_bound(t as int, t as int, 65536, 65536);
    }
    let t2: i64 = rmul(t, t);
    proof {
        lemma_tdiv_mul_bound(t2 as int, t as int, 65536, 65536);
    }
    let t3: i64 = rmul(t2, t);
    let s: i64 = 6 * t - 983040;
    proof {
        lemma_tdiv_mul_bound(t as int, s as int, 65536, 983040);
    }
    let p1: i64 = rmul(t, s) + 655360;
    proof {
        lemma_tdiv_mul_bound(t3 as int, p1 as int, 65536, 1638400);
    }
    let f: i64 = rmul(t3, p1);
    if f < 0 {
        0
    } else if f > 65536 {
        65536
    } else {
        f
    }
}

/// Linear interpolation `a + w * (b - a)` with a fixed-point weight.
pub open spec fn spec_lerp(a: int, b: int, w: int) -> int {
    a + tdiv(w * (b - a), FX_ONE as int)
}

pub(crate) fn lerp(a: i64, b: i64, w: i64) -> (r: i64)
    requires
        -0x20_0000 <= a <= 0x20_0000,
        -0x20_0000 <= b <= 0x20_0000,
        0 <= w <= 65536,
    ensures
        r == spec_lerp(a as int, b as int, w as int),
        a <= b ==> a <= r <= b,
        b <= a ==> b <= r <= a,
{
    let d: i64 = b - a;
    let t: i64 = rmul(w, d);
    proof {
        if d >= 0 {
            lemma_mul_nonnegative(w as int, d as int);
            lemma_tdiv_mag(w * d, FX_ONE as int);
            lemma_mul_inequality(w as int, 65536, d as int);
            lemma_div_is_ordered(w * d, 65536 * d, 65536);
            lemma_div_multiples_vanish(d as int, 65536);
            assert(65536 * d == (65536 as int) * (d as int));
        } else {
            lemma_tdiv_mul_bound(w as int, d as int, 65536, iabs(d as int));
            lemma_div_multiples_vanish(iabs(d as int), 65536);
            assert(65536 * iabs(d as int) == iabs(d as int) * 65536) by (nonlinear_arith);
            lemma_mul_nonnegative(w as int, -(d as int));
            lemma_mul_unary_negation(w as int, d as int);
            lemma_tdiv_mag(w * d, FX_ONE as int);
        }
    }
    a + t
}

/// The Perlin-style gradient noise field at a sample point: always finite,
/// always within `[-1, 1]`; zero at a non-finite sample point (a non-finite
/// octave frequency contributes nothing rather than poisoning the blend).
#[verifier::opaque]
pub open spec fn spec_noise(seed: u32, x: Fx, z: Fx) -> Fx {
    if !x.fin || !z.fin {
        fx_fin(0)
    } else {
        let cx: int = (x.raw as int) / (FX_ONE as int);
        let xf: int = (x.raw as int) % (FX_ONE as int);
        let cz: int = (z.raw as int) / (FX_ONE as int);
        let zf: int = (z.raw as int) % (FX_ONE as int);
        let g00: u64 = spec_corner_grad(seed, cx, cz);
        let g10: u64 = spec_corner_grad(seed, cx + 1, cz);
        let g01: u64 = spec_corner_grad(seed, cx, cz + 1);
        let g11: u64 = spec_corner_grad(seed, cx + 1, cz + 1);
        let d00: int = spec_grad_dot(g00, xf, zf);
        let d10: int = spec_grad_dot(g10, xf - 65536, zf);
        let d01: int = spec_grad_dot(g01, xf, zf - 65536);
        let d11: int = spec_grad_dot(g11, xf - 65536, zf - 65536);
        let u: int = spec_fade(xf);
        let v: int = spec_fade(zf);
        let nx0: int = spec_lerp(d00, d10, u);
        let nx1: int = spec_lerp(d01, d11, u);
        let n: int = spec_lerp(nx0, nx1, v);
        let s: int = tdiv(n * 92682, FX_ONE as int);
        if s < -65536 {
            fx_fin(-65536)
        } else if s > 65536 {
            fx_fin(65536)
        } else {
            fx_fin(s)
        }
    }
}

/// The noise value is always finite and within one unit of zero.
pub proof fn lemma_noise_bounded(seed: u32, x: Fx, z: Fx)
    ensures
        spec_noise(seed, x, z).fin,
        -FX_ONE <= spec_noise(seed, x, z).raw <= FX_ONE,
{
    reveal(spec_noise);
}

/// Gradient noise vanishes on the unit lattice: at a sample point whose
/// coordinates are whole units, every corner offset is zero or discarded by
/// a zero fade weight, so the value is exactly zero (whatever the seed).
pub proof fn lemma_noise_zero_at_lattice(seed: u32, x: Fx, z: Fx)
    requires
        x.fin,
        z.fin,
        (x.raw as int) % (FX_ONE as int) == 0,
        (z.raw as int) % (FX_ONE as int) == 0,
    ensures
        spec_noise(seed, x, z) == fx_fin(0),
{
    reveal(spec_noise);
    lemma_div_of0(FX_ONE as int);
}

/// A deterministic pseudo-random gradient field, constructed from an integer
/// seed; stateless apart from the seed. Distinct seeds give decorrelated
/// fields.
#[derive(Clone, Copy, PartialEq, Eq, Structural, Debug)]
pub struct Perlin {
    pub seed: u32,
}

impl Perlin {
    pub fn new(seed: u32) -> (r: Perlin)
        ensures
            r == (Perlin { seed }),
    {
        Perlin { seed }
    }

    /// Sample the gradient noise at `(x, z)`.
    pub fn get(&self, x: Fx, z: Fx) -> (r: Fx)
        ensures
            r == spec_noise(self.seed, x, z),
    {
        proof {
            reveal(spec_noise);
        }
        if !x.fin || !z.fin {
            return Fx { raw: 0, fin: true };
        }
        proof {
            lemma_div_is_ordered(-0x8000_0000_0000_0000, x.raw as int, 65536);
            lemma_div_is_ordered(x.raw as int, 0x7fff_ffff_ffff_ffff, 65536);
            lemma_div_is_ordered(-0x8000_0000_0000_0000, z.raw as int, 65536);
            lemma_div_is_ordered(z.raw as int, 0x7fff_ffff_ffff_ffff, 65536);
            lemma_fundamental_div_mod_converse(
                -0x8000_0000_0000_0000,
                65536,
                -0x8000_0000_0000,
                0,
            );
            lemma_fundamental_div_mod_converse(
                0x7fff_ffff_ffff_ffff,
                65536,
                0x7fff_ffff_ffff,
                65535,
            );
        }
        let xs: (i64, i64) = fx_floor_split(x.raw);
        let zs: (i64, i64) = fx_floor_split(z.raw);
        let cx: i64 = xs.0;
        let xf: i64 = xs.1;
        let cz: i64 = zs.0;
        let zf: i64 = zs.1;
        let g00: u64 = corner_grad(self.seed, cx, cz);
        let g10: u64 = corner_grad(self.seed, cx + 1, cz);
        let g01: u64 = corner_grad(self.seed, cx, cz + 1);
        let g11: u64 = corner_grad(self.seed, cx + 1, cz + 1);
        let d00: i64 = grad_dot(g00, xf, zf);
        let d10: i64 = grad_dot(g10, xf - 65536, zf);
        let d01: i64 = grad_dot(g01, xf, zf - 65536);
        let d11: i64 = grad_dot(g11, xf - 65536, zf - 65536);
        let u: i64 = fade(xf);
        let v: i64 = fade(zf);
        let nx0: i64 = lerp(d00, d10, u);
        let nx1: i64 = lerp(d01, d11, u);
        let n: i64 = lerp(nx0, nx1, v);
        proof {
            lemma_tdiv_mul_bound(n as int, 92682, 131072, 92682);
        }
        let s: i64 = rmul(n, 92682);
        if s < -65536 {
            Fx { raw: -65536, fin: true }
        } else if s > 65536 {
            Fx { raw: 65536, fin: true }
        } else {
            Fx { raw: s, fin: true }
        }
    }
}


/// Accumulator of the fractal octave loops: partial weighted sum, total
/// weight, current sample point (frequency-stepped), current octave weight.
pub struct FractalState {
    pub sum: Fx,
    pub wsum: Fx,
    pub px: Fx,
    pub pz: Fx,
    pub w: Fx,
}

/// State of the plain fractal accumulation after `k` octaves: octave `i`
/// contributes `w_i * noise(p_i)` with the point stepped by `lacunarity` and
/// the weight by `gain` each octave, starting from weight one.
pub open spec fn spec_fbm_state(seed: u32, lac: Fx, gain: Fx, x0: Fx, z0: Fx, k: nat) -> FractalState
    decreases k,
{
    if k == 0 {
        FractalState { sum: fx_fin(0), wsum: fx_fin(0), px: x0, pz: z0, w: fx_fin(FX_ONE as int) }
    } else {
        let s = spec_fbm_state(seed, lac, gain, x0, z0, (k - 1) as nat);
        FractalState {
            sum: spec_fx_add(s.sum, spec_fx_mul(s.w, spec_noise(seed, s.px, s.pz))),
            wsum: spec_fx_add(s.wsum, s.w),
            px: spec_fx_mul(s.px, lac),
            pz: spec_fx_mul(s.pz, lac),
            w: spec_fx_mul(s.w, gain),
        }
    }
}

/// The fractal sum of `octaves` noise layers at `(x, z)`: the weighted
/// average of the layers (sum over total weight), scaled by `amplitude`.
pub open spec fn spec_fbm(
    seed: u32,
    freq: Fx,
    octaves: u32,
    lac: Fx,
    gain: Fx,
    amplitude: Fx,
    x: Fx,
    z: Fx,
) -> Fx {
    if !x.fin || !z.fin {
        fx_nonfin()
    } else {
        let s = spec_fbm_state(
            seed,
            lac,
            gain,
            spec_fx_mul(x, freq),
            spec_fx_mul(z, freq),
            octaves as nat,
        );
        spec_fx_mul(spec_fx_div(s.sum, s.wsum), amplitude)
    }
}

/// State of the ridged accumulation after `k` octaves: each octave's raw
/// noise `n` is folded to `1 - |n|` and squared before weighting, and the
/// z frequency steps by `lacunarity * z_anisotropy` while x steps by plain
/// `lacunarity`, elongating the ridges.
pub open spec fn spec_ridged_state(
    seed: u32,
    lac: Fx,
    zan: Fx,
    gain: Fx,
    x0: Fx,
    z0: Fx,
    k: nat,
) -> FractalState
    decreases k,
{
    if k == 0 {
        FractalState { sum: fx_fin(0), wsum: fx_fin(0), px: x0, pz: z0, w: fx_fin(FX_ONE as int) }
    } else {
        let s = spec_ridged_state(seed, lac, zan, gain, x0, z0, (k - 1) as nat);
        let v = spec_fx_sub(fx_fin(FX_ONE as int), spec_fx_abs(spec_noise(seed, s.px, s.pz)));
        FractalState {
            sum: spec_fx_add(s.sum, spec_fx_mul(s.w, spec_fx_mul(v, v))),
            wsum: spec_fx_add(s.wsum, s.w),
            px: spec_fx_mul(s.px, lac),
            pz: spec_fx_mul(s.pz, spec_fx_mul(lac, zan)),
            w: spec_fx_mul(s.w, gain),
        }
    }
}

/// The ridged fractal value at `(x, z)`: the weighted average of the folded
/// layers, clamped into `[0, 1]` (ridged noise is one-sided; the clamp
/// guards the boundary), scaled by `amplitude`.
pub open spec fn spec_ridged(
    seed: u32,
    freq: Fx,
    octaves: u32,
    lac: Fx,
    gain: Fx,
    amplitude: Fx,
    zan: Fx,
    x: Fx,
    z: Fx,
) -> Fx {
    if !x.fin || !z.fin {
        fx_nonfin()
    } else {
        let s = spec_ridged_state(
            seed,
            lac,
            zan,
            gain,
            spec_fx_mul(x, freq),
            spec_fx_mul(z, freq),
            octaves as nat,
        );
        spec_fx_mul(spec_fx_clamp(spec_fx_div(s.sum, s.wsum), 0, FX_ONE), amplitude)
    }
}

/// Multi-octave fractal noise: `octaves` layers of gradient noise, each
/// layer's frequency stepped by `lacunarity` and weight by `gain`, averaged
/// over the total weight and scaled by `amplitude`.
pub struct PerlinFbm {
    pub perlin: Perlin,
    pub freq: Fx,
    pub octaves: u32,
    pub lacunarity: Fx,
    pub gain: Fx,
    pub amplitude: Fx,
}

impl PerlinFbm {
    /// Pre-flight check: zero octaves would divide by a zero total weight.
    pub fn validate(&self) -> (r: Result<(), TerrainError>)
        ensures
            r is Ok <==> self.octaves >= 1,
            r is Err ==> r == Err::<(), TerrainError>(TerrainError::InvalidParameter),
    {
        if self.octaves >= 1 {
            Ok(())
        } else {
            Err(TerrainError::InvalidParameter)
        }
    }
}

impl HeightSource for PerlinFbm {
    open spec fn spec_height(&self, x: Fx, z: Fx) -> Fx {
        spec_fbm(
            self.perlin.seed,
            self.freq,
            self.octaves,
            self.lacunarity,
            self.gain,
            self.amplitude,
            x,
            z,
        )
    }

    fn height_at(&self, x: Fx, z: Fx) -> (r: Fx)
        ensures
            r == self.spec_height(x, z),
    {
        if !x.fin || !z.fin {
            return Fx { raw: 0, fin: false };
        }
        let mut sum: Fx = Fx::zero();
        let mut wsum: Fx = Fx::zero();
        let mut px: Fx = fx_mul(x, self.freq);
        let mut pz: Fx = fx_mul(z, self.freq);
        let mut w: Fx = Fx::one();
        let mut i: u32 = 0;
        while i < self.octaves
            invariant
                i <= self.octaves,
                (FractalState { sum, wsum, px, pz, w }) == spec_fbm_state(
                    self.perlin.seed,
                    self.lacunarity,
                    self.gain,
                    spec_fx_mul(x, self.freq),
                    spec_fx_mul(z, self.freq),
                    i as nat,
                ),
            decreases self.octaves - i,
        {
            let n: Fx = self.perlin.get(px, pz);
            sum = fx_add(sum, fx_mul(w, n));
            wsum = fx_add(wsum, w);
            px = fx_mul(px, self.lacunarity);
            pz = fx_mul(pz, self.lacunarity);
            w = fx_mul(w, self.gain);
            i = i + 1;
        }
        fx_mul(fx_div(sum, wsum), self.amplitude)
    }
}

/// Ridged multi-octave fractal noise with anisotropic lacunarity stepping:
/// each octave's sample is folded around zero to a crest (`1 - |n|`,
/// squared), and the z frequency additionally steps by `z_anisotropy`.
pub struct PerlinRidged {
    pub perlin: Perlin,
    pub freq: Fx,
    pub octaves: u32,
    pub lacunarity: Fx,
    pub gain: Fx,
    pub amplitude: Fx,
    pub z_anisotropy: Fx,
}

impl PerlinRidged {
    /// Pre-flight check: zero octaves would divide by a zero total weight.
    pub fn validate(&self) -> (r: Result<(), TerrainError>)
        ensures
            r is Ok <==> self.octaves >= 1,
            r is Err ==> r == Err::<(), TerrainError>(TerrainError::InvalidParameter),
    {
        if self.octaves >= 1 {
            Ok(())
        } else {
            Err(TerrainError::InvalidParameter)
        }
    }
}

impl HeightSource for PerlinRidged {
    open spec fn spec_height(&self, x: Fx, z: Fx) -> Fx {
        spec_ridged(
            self.perlin.seed,
            self.freq,
            self.octaves,
            self.lacunarity,
            self.gain,
            self.amplitude,
            self.z_anisotropy,
            x,
            z,
        )
    }

    fn height_at(&self, x: Fx, z: Fx) -> (r: Fx)
        ensures
            r == self.spec_height(x, z),
    {
        if !x.fin || !z.fin {
            return Fx { raw: 0, fin: false };
        }
        let mut sum: Fx = Fx::zero();
        let mut wsum: Fx = Fx::zero();
        let mut px: Fx = fx_mul(x, self.freq);
        let mut pz: Fx = fx_mul(z, self.freq);
        let mut w: Fx = Fx::one();
        let mut i: u32 = 0;
        while i < self.octaves
            invariant
                i <= self.octaves,
                (FractalState { sum, wsum, px, pz, w }) == spec_ridged_state(
                    self.perlin.seed,
                    self.lacunarity,
                    self.z_anisotropy,
                    self.gain,
                    spec_fx_mul(x, self.freq),
                    spec_fx_mul(z, self.freq),
                    i as nat,
                ),
            decreases self.octaves - i,
        {
            let n: Fx = self.perlin.get(px, pz);
            let v: Fx = fx_sub(Fx::one(), fx_abs(n));
            sum = fx_add(sum, fx_mul(w, fx_mul(v, v)));
            wsum = fx_add(wsum, w);
            px = fx_mul(px, self.lacunarity);
            pz = fx_mul(pz, fx_mul(self.lacunarity, self.z_anisotropy));
            w = fx_mul(w, self.gain);
            i = i + 1;
        }
        fx_mul(fx_clamp(fx_div(sum, wsum), 0, FX_ONE), self.amplitude)
    }
}

/// Invariants of the plain fractal accumulator: the octave weight stays in
/// `[0, 1]`, the total weight grows to at most `k` and reaches at least one
/// full unit after the first octave, and the weighted sum never exceeds the
/// total weight in magnitude.
pub proof fn lemma_fbm_state_bounded(seed: u32, lac: Fx, gain: Fx, x0: Fx, z0: Fx, k: nat)
    requires
        gain.fin,
        0 <= gain.raw <= FX_ONE,
        k <= 0xffff_ffff,
    ensures
        ({
            let s = spec_fbm_state(seed, lac, gain, x0, z0, k);
            s.w.fin && 0 <= s.w.raw <= FX_ONE && s.wsum.fin && 0 <= s.wsum.raw <= k * (
            FX_ONE as int) && s.sum.fin && iabs(s.sum.raw as int) <= s.wsum.raw && (k >= 1
                ==> s.wsum.raw >= FX_ONE)
        }),
    decreases k,
{
    if k > 0 {
        lemma_fbm_state_bounded(seed, lac, gain, x0, z0, (k - 1) as nat);
        let s = spec_fbm_state(seed, lac, gain, x0, z0, (k - 1) as nat);
        lemma_noise_bounded(seed, s.px, s.pz);
        let n = spec_noise(seed, s.px, s.pz);
        lemma_fx_mul_contract(s.w, n);
        lemma_fx_mul_contract(s.w, gain);
    }
}

/// Invariants of the ridged accumulator: as for the plain one, and the
/// weighted sum is additionally nonnegative.
pub proof fn lemma_ridged_state_bounded(
    seed: u32,
    lac: Fx,
    zan: Fx,
    gain: Fx,
    x0: Fx,
    z0: Fx,
    k: nat,
)
    requires
        gain.fin,
        0 <= gain.raw <= FX_ONE,
        k <= 0xffff_ffff,
    ensures
        ({
            let s = spec_ridged_state(seed, lac, zan, gain, x0, z0, k);
            s.w.fin && 0 <= s.w.raw <= FX_ONE && s.wsum.fin && 0 <= s.wsum.raw <= k * (
            FX_ONE as int) && s.sum.fin && 0 <= s.sum.raw <= s.wsum.raw && (k >= 1
                ==> s.wsum.raw >= FX_ONE)
        }),
    decreases k,
{
    if k > 0 {
        lemma_ridged_state_bounded(seed, lac, zan, gain, x0, z0, (k - 1) as nat);
        let s = spec_ridged_state(seed, lac, zan, gain, x0, z0, (k - 1) as nat);
        lemma_noise_bounded(seed, s.px, s.pz);
        let n = spec_noise(seed, s.px, s.pz);
        let v = spec_fx_sub(fx_fin(FX_ONE as int), spec_fx_abs(n));
        assert(v.fin && 0 <= v.raw <= FX_ONE);
        lemma_fx_mul_contract(v, v);
        let sq = spec_fx_mul(v, v);
        lemma_fx_mul_contract(s.w, sq);
        lemma_fx_mul_contract(s.w, gain);
    }
}

/// Bounded fractal accumulation: with at least one octave, a gain in
/// `[0, 1]`, and a nonnegative amplitude, the fractal sum is finite and
/// stays within `[-amplitude, amplitude]` at every finite sample point,
/// whatever the seed, frequency and lacunarity.
pub proof fn lemma_fbm_bounded(
    seed: u32,
    freq: Fx,
    octaves: u32,
    lac: Fx,
    gain: Fx,
    amplitude: Fx,
    x: Fx,
    z: Fx,
)
    requires
        octaves >= 1,
        gain.fin,
        0 <= gain.raw <= FX_ONE,
        amplitude.fin,
        0 <= amplitude.raw,
        x.fin,
        z.fin,
    ensures
        spec_fbm(seed, freq, octaves, lac, gain, amplitude, x, z).fin,
        -amplitude.raw <= spec_fbm(seed, freq, octaves, lac, gain, amplitude, x, z).raw
            <= amplitude.raw,
{
    let x0 = spec_fx_mul(x, freq);
    let z0 = spec_fx_mul(z, freq);
    lemma_fbm_state_bounded(seed, lac, gain, x0, z0, octaves as nat);
    let s = spec_fbm_state(seed, lac, gain, x0, z0, octaves as nat);
    lemma_fx_div_unit(s.sum, s.wsum);
    lemma_fx_mul_amp(spec_fx_div(s.sum, s.wsum), amplitude);
}

/// One-sided ridged accumulation: with at least one octave, a gain in
/// `[0, 1]`, and a nonnegative amplitude, the ridged value is finite and
/// lies within `[0, amplitude]` at every finite sample point.
pub proof fn lemma_ridged_bounded(
    seed: u32,
    freq: Fx,
    octaves: u32,
    lac: Fx,
    gain: Fx,
    amplitude: Fx,
    zan: Fx,
    x: Fx,
    z: Fx,
)
    requires
        octaves >= 1,
        gain.fin,
        0 <= gain.raw <= FX_ONE,
        amplitude.fin,
        0 <= amplitude.raw,
        x.fin,
        z.fin,
    ensures
        spec_ridged(seed, freq, octaves, lac, gain, amplitude, zan, x, z).fin,
        0 <= spec_ridged(seed, freq, octaves, lac, gain, amplitude, zan, x, z).raw
            <= amplitude.raw,
{
    let x0 = spec_fx_mul(x, freq);
    let z0 = spec_fx_mul(z, freq);
    lemma_ridged_state_bounded(seed, lac, zan, gain, x0, z0, octaves as nat);
    let s = spec_ridged_state(seed, lac, zan, gain, x0, z0, octaves as nat);
    lemma_fx_div_unit(s.sum, s.wsum);
    let c = spec_fx_clamp(spec_fx_div(s.sum, s.wsum), 0, FX_ONE);
    lemma_fx_mul_amp(c, amplitude);
}



/// Bounded fractal field, stated on the field itself: `height_at` of a
/// fractal field with at least one octave, a gain in `[0, 1]` and a
/// nonnegative amplitude stays within `[-amplitude, amplitude]` at every
/// finite sample point.
pub proof fn lemma_fbm_height_bounded(f: PerlinFbm, x: Fx, z: Fx)
    requires
        f.octaves >= 1,
        f.gain.fin,
        0 <= f.gain.raw <= FX_ONE,
        f.amplitude.fin,
        0 <= f.amplitude.raw,
        x.fin,
        z.fin,
    ensures
        f.spec_height(x, z).fin,
        -f.amplitude.raw <= f.spec_height(x, z).raw <= f.amplitude.raw,
{
    lemma_fbm_bounded(f.perlin.seed, f.freq, f.octaves, f.lacunarity, f.gain, f.amplitude, x, z);
}

/// One-sided ridged field, stated on the field itself: `height_at` of a
/// ridged field with at least one octave, a gain in `[0, 1]` and a
/// nonnegative amplitude lies within `[0, amplitude]` at every finite
/// sample point.
pub proof fn lemma_ridged_height_bounded(f: PerlinRidged, x: Fx, z: Fx)
    requires
        f.octaves >= 1,
        f.gain.fin,
        0 <= f.gain.raw <= FX_ONE,
        f.amplitude.fin,
        0 <= f.amplitude.raw,
        x.fin,
        z.fin,
    ensures
        f.spec_height(x, z).fin,
        0 <= f.spec_height(x, z).raw <= f.amplitude.raw,
{
    lemma_ridged_bounded(
        f.perlin.seed,
        f.freq,
        f.octaves,
        f.lacunarity,
        f.gain,
        f.amplitude,
        f.z_anisotropy,
        x,
        z,
    );
}


} // verus!
