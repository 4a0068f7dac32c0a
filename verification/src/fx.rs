//! Fixed-point scalar arithmetic for the terrain pipeline.
//!
//! A height or coordinate is an [`Fx`]: a signed value in 1/65536 steps
//! (16 fractional bits) together with a finiteness flag. Arithmetic is total:
//! an operation on a non-finite operand, an overflow, or a division by zero
//! yields the canonical non-finite value, which later stages absorb locally
//! (the mesh builder falls back to an up-pointing normal). Every operation is
//! specified exactly, so evaluation is deterministic by construction.

use vstd::prelude::*;
use vstd::arithmetic::div_mod::*;
use vstd::arithmetic::mul::*;

verus! {

/// Raw representation of 1 (one whole unit): 2^16.
pub const FX_ONE: i64 = 65536;

/// Largest raw magnitude a finite scalar may carry.
pub const FX_MAX_RAW: i64 = 0x7fff_ffff_ffff_ffff;

/// Largest whole number that converts to a finite scalar: 2^47 - 1.
pub const FX_MAX_INT: i64 = 0x7fff_ffff_ffff;

/// A fixed-point scalar (16 fractional bits) with an explicit non-finite
/// state.
///
/// `raw` is the value scaled by 2^16; `fin` is false for the non-finite
/// value, which stands in for an overflowed or undefined result the way an
/// IEEE infinity or NaN would. Operations built here always produce the
/// canonical non-finite value (`raw == 0`).
#[derive(Clone, Copy, PartialEq, Eq, Structural, Debug)]
pub struct Fx {
    pub raw: i64,
    pub fin: bool,
}

/// Magnitude of an integer.
pub open spec fn iabs(v: int) -> int {
    if v >= 0 {
        v
    } else {
        -v
    }
}

/// Quotient of `p / d` rounded toward zero (`d != 0`).
pub open spec fn tdiv(p: int, d: int) -> int {
    if (p < 0) == (d < 0) {
        iabs(p) / iabs(d)
    } else {
        -(iabs(p) / iabs(d))
    }
}

/// Whether a raw value fits a finite scalar.
pub open spec fn fx_representable(v: int) -> bool {
    -FX_MAX_RAW <= v && v <= FX_MAX_RAW
}

/// The canonical non-finite scalar.
pub open spec fn fx_nonfin() -> Fx {
    Fx { raw: 0, fin: false }
}

/// The finite scalar with raw value `v` (meaningful for representable `v`).
pub open spec fn fx_fin(v: int) -> Fx {
    Fx { raw: v as i64, fin: true }
}

pub open spec fn spec_fx_add(a: Fx, b: Fx) -> Fx {
    if a.fin && b.fin && fx_representable(a.raw + b.raw) {
        fx_fin(a.raw + b.raw)
    } else {
        fx_nonfin()
    }
}

pub open spec fn spec_fx_sub(a: Fx, b: Fx) -> Fx {
    if a.fin && b.fin && fx_representable(a.raw - b.raw) {
        fx_fin(a.raw - b.raw)
    } else {
        fx_nonfin()
    }
}

pub open spec fn spec_fx_neg(a: Fx) -> Fx {
    if a.fin && fx_representable(-a.raw) {
        fx_fin(-a.raw)
    } else {
        fx_nonfin()
    }
}

pub open spec fn spec_fx_abs(a: Fx) -> Fx {
    if a.fin && fx_representable(iabs(a.raw as int)) {
        fx_fin(iabs(a.raw as int))
    } else {
        fx_nonfin()
    }
}

pub open spec fn spec_fx_mul(a: Fx, b: Fx) -> Fx {
    if a.fin && b.fin && fx_representable(tdiv(a.raw * b.raw, FX_ONE as int)) {
        fx_fin(tdiv(a.raw * b.raw, FX_ONE as int))
    } else {
        fx_nonfin()
    }
}

pub open spec fn spec_fx_div(a: Fx, b: Fx) -> Fx {
    if a.fin && b.fin && b.raw != 0 && fx_representable(tdiv(a.raw * FX_ONE, b.raw as int)) {
        fx_fin(tdiv(a.raw * FX_ONE, b.raw as int))
    } else {
        fx_nonfin()
    }
}

/// Clamp into `[lo, hi]` on raw values; non-finite stays non-finite.
pub open spec fn spec_fx_clamp(a: Fx, lo: i64, hi: i64) -> Fx {
    if !a.fin {
        fx_nonfin()
    } else if a.raw < lo {
        fx_fin(lo as int)
    } else if a.raw > hi {
        fx_fin(hi as int)
    } else {
        a
    }
}

pub open spec fn spec_fx_from_int(v: int) -> Fx {
    if -FX_MAX_INT <= v && v <= FX_MAX_INT {
        fx_fin(v * FX_ONE)
    } else {
        fx_nonfin()
    }
}

impl Fx {
    /// The finite scalar 0.
    pub fn zero() -> (r: Fx)
        ensures
            r == fx_fin(0),
    {
        Fx { raw: 0, fin: true }
    }

    /// The finite scalar 1.
    pub fn one() -> (r: Fx)
        ensures
            r == fx_fin(FX_ONE as int),
    {
        Fx { raw: FX_ONE, fin: true }
    }

    /// The canonical non-finite scalar.
    pub fn non_finite() -> (r: Fx)
        ensures
            r == fx_nonfin(),
    {
        Fx { raw: 0, fin: false }
    }

    /// A finite scalar from its raw (2^16-scaled) representation.
    pub fn from_raw(raw: i64) -> (r: Fx)
        ensures
            r == (Fx { raw, fin: true }),
    {
        Fx { raw, fin: true }
    }

    /// A finite scalar holding the whole number `v`, non-finite if `v` is out
    /// of range.
    pub fn from_int(v: i64) -> (r: Fx)
        ensures
            r == spec_fx_from_int(v as int),
    {
        if v > FX_MAX_INT || v < -FX_MAX_INT {
            Fx { raw: 0, fin: false }
        } else {
            Fx { raw: v * FX_ONE, fin: true }
        }
    }
}

/// A pair of scalars: a point or direction on the ground plane.
#[derive(Clone, Copy, PartialEq, Eq, Structural, Debug)]
pub struct Fx2 {
    pub x: Fx,
    pub y: Fx,
}

/// A triple of scalars: a position or normal in space.
#[derive(Clone, Copy, PartialEq, Eq, Structural, Debug)]
pub struct Fx3 {
    pub x: Fx,
    pub y: Fx,
    pub z: Fx,
}

/// Interval bound on a product.
pub proof fn lemma_mul_le(a: int, b: int, am: int, bm: int)
    requires
        -am <= a <= am,
        -bm <= b <= bm,
    ensures
        -(am * bm) <= a * b <= am * bm,
{
    assert(-(am * bm) <= a * b <= am * bm) by (nonlinear_arith)
        requires
            -am <= a <= am,
            -bm <= b <= bm,
    ;
}

/// Magnitude and sign of a truncating division by a positive divisor.
pub proof fn lemma_tdiv_mag(p: int, d: int)
    requires
        d > 0,
    ensures
        iabs(tdiv(p, d)) == iabs(p) / d,
        p >= 0 ==> tdiv(p, d) == p / d && tdiv(p, d) >= 0,
        p <= 0 ==> tdiv(p, d) <= 0,
{
    lemma_div_pos_is_pos(iabs(p), d);
}

/// Magnitude bound on the scaled product `tdiv(a * b, 2^16)`.
pub proof fn lemma_tdiv_mul_bound(a: int, b: int, am: int, bm: int)
    requires
        -am <= a <= am,
        -bm <= b <= bm,
    ensures
        iabs(tdiv(a * b, FX_ONE as int)) <= (am * bm) / (FX_ONE as int),
        0 <= (am * bm) / (FX_ONE as int),
{
    lemma_mul_le(a, b, am, bm);
    lemma_tdiv_mag(a * b, FX_ONE as int);
    lemma_div_is_ordered(iabs(a * b), am * bm, FX_ONE as int);
    lemma_div_pos_is_pos(am * bm, FX_ONE as int);
}

/// Multiplying by a factor within `[-1, 1]` cannot grow the magnitude.
pub proof fn lemma_fx_mul_contract(a: Fx, b: Fx)
    requires
        a.fin,
        fx_representable(a.raw as int),
        b.fin,
        iabs(b.raw as int) <= FX_ONE,
    ensures
        spec_fx_mul(a, b).fin,
        iabs(spec_fx_mul(a, b).raw as int) <= iabs(a.raw as int),
        a.raw >= 0 && b.raw >= 0 ==> spec_fx_mul(a, b).raw >= 0,
{
    lemma_tdiv_mul_bound(a.raw as int, b.raw as int, iabs(a.raw as int), FX_ONE as int);
    lemma_div_multiples_vanish(iabs(a.raw as int), FX_ONE as int);
    assert(iabs(a.raw as int) * (FX_ONE as int) == (FX_ONE as int) * iabs(a.raw as int))
        by (nonlinear_arith);
    if a.raw >= 0 && b.raw >= 0 {
        lemma_mul_nonnegative(a.raw as int, b.raw as int);
        lemma_tdiv_mag(a.raw * b.raw, FX_ONE as int);
    }
}

/// Dividing by a positive value at least as large yields a result in
/// `[-1, 1]`.
pub proof fn lemma_fx_div_unit(s: Fx, w: Fx)
    requires
        s.fin,
        w.fin,
        w.raw > 0,
        iabs(s.raw as int) <= w.raw,
    ensures
        spec_fx_div(s, w).fin,
        iabs(spec_fx_div(s, w).raw as int) <= FX_ONE,
        s.raw >= 0 ==> spec_fx_div(s, w).raw >= 0,
{
    let p: int = s.raw * FX_ONE;
    assert(iabs(p) == iabs(s.raw as int) * (FX_ONE as int));
    lemma_tdiv_mag(p, w.raw as int);
    lemma_mul_inequality(iabs(s.raw as int), w.raw as int, FX_ONE as int);
    lemma_div_is_ordered(iabs(p), w.raw * FX_ONE, w.raw as int);
    lemma_div_multiples_vanish(FX_ONE as int, w.raw as int);
    assert(w.raw * FX_ONE == (w.raw as int) * (FX_ONE as int));
    if s.raw >= 0 {
        lemma_div_pos_is_pos(p, w.raw as int);
    }
}

/// Scaling a value in `[-1, 1]` by a nonnegative amplitude stays within the
/// amplitude.
pub proof fn lemma_fx_mul_amp(c: Fx, amp: Fx)
    requires
        c.fin,
        amp.fin,
        iabs(c.raw as int) <= FX_ONE,
        amp.raw >= 0,
    ensures
        spec_fx_mul(c, amp).fin,
        iabs(spec_fx_mul(c, amp).raw as int) <= amp.raw,
        c.raw >= 0 ==> spec_fx_mul(c, amp).raw >= 0,
{
    lemma_tdiv_mul_bound(c.raw as int, amp.raw as int, FX_ONE as int, amp.raw as int);
    lemma_div_multiples_vanish(amp.raw as int, FX_ONE as int);
    assert((FX_ONE as int) * (amp.raw as int) == (amp.raw as int) * (FX_ONE as int))
        by (nonlinear_arith);
    if c.raw >= 0 {
        lemma_mul_nonnegative(c.raw as int, amp.raw as int);
        lemma_tdiv_mag(c.raw * amp.raw, FX_ONE as int);
    }
}

/// Multiplying by zero gives exactly zero.
pub proof fn lemma_fx_mul_zero(a: Fx)
    requires
        a.fin,
    ensures
        spec_fx_mul(a, fx_fin(0)) == fx_fin(0),
        spec_fx_mul(fx_fin(0), a) == fx_fin(0),
{
    assert(a.raw * 0 == 0) by (nonlinear_arith);
    assert(0 * a.raw == 0) by (nonlinear_arith);
}

/// Multiplying by one is exact.
pub proof fn lemma_fx_mul_one(a: Fx)
    requires
        a.fin,
        fx_representable(a.raw as int),
    ensures
        spec_fx_mul(a, fx_fin(FX_ONE as int)) == a,
{
    if a.raw >= 0 {
        assert(iabs(a.raw * FX_ONE) == iabs(a.raw as int) * (FX_ONE as int));
        lemma_div_by_multiple(iabs(a.raw as int), FX_ONE as int);
    } else {
        assert(iabs(a.raw * FX_ONE) == iabs(a.raw as int) * (FX_ONE as int));
        lemma_div_by_multiple(iabs(a.raw as int), FX_ONE as int);
    }
}

/// Multiplying by minus one is exact negation.
pub proof fn lemma_fx_mul_neg_one(a: Fx)
    requires
        a.fin,
        fx_representable(a.raw as int),
    ensures
        spec_fx_mul(a, fx_fin(-(FX_ONE as int))) == spec_fx_neg(a),
{
    lemma_mul_unary_negation(a.raw as int, FX_ONE as int);
    assert(a.raw * (-(FX_ONE as int)) == -(a.raw * (FX_ONE as int)));
    assert(iabs(a.raw * (-(FX_ONE as int))) == iabs(a.raw as int) * (FX_ONE as int));
    lemma_div_by_multiple(iabs(a.raw as int), FX_ONE as int);
}

/// Adding zero is exact.
pub proof fn lemma_fx_add_zero(a: Fx)
    requires
        a.fin,
        fx_representable(a.raw as int),
    ensures
        spec_fx_add(a, fx_fin(0)) == a,
        spec_fx_add(fx_fin(0), a) == a,
{
}

pub fn fx_add(a: Fx, b: Fx) -> (r: Fx)
    ensures
        r == spec_fx_add(a, b),
{
    if !a.fin || !b.fin {
        return Fx { raw: 0, fin: false };
    }
    let s: i128 = (a.raw as i128) + (b.raw as i128);
    if s > 0x7fff_ffff_ffff_ffff || s < -0x7fff_ffff_ffff_ffff {
        Fx { raw: 0, fin: false }
    } else {
        Fx { raw: s as i64, fin: true }
    }
}

pub fn fx_sub(a: Fx, b: Fx) -> (r: Fx)
    ensures
        r == spec_fx_sub(a, b),
{
    if !a.fin || !b.fin {
        return Fx { raw: 0, fin: false };
    }
    let s: i128 = (a.raw as i128) - (b.raw as i128);
    if s > 0x7fff_ffff_ffff_ffff || s < -0x7fff_ffff_ffff_ffff {
        Fx { raw: 0, fin: false }
    } else {
        Fx { raw: s as i64, fin: true }
    }
}

pub fn fx_neg(a: Fx) -> (r: Fx)
    ensures
        r == spec_fx_neg(a),
{
    if !a.fin {
        return Fx { raw: 0, fin: false };
    }
    if a.raw == i64::MIN {
        return Fx { raw: 0, fin: false };
    }
    Fx { raw: -a.raw, fin: true }
}

pub fn fx_abs(a: Fx) -> (r: Fx)
    ensures
        r == spec_fx_abs(a),
{
    if !a.fin {
        return Fx { raw: 0, fin: false };
    }
    if a.raw == i64::MIN {
        return Fx { raw: 0, fin: false };
    }
    if a.raw < 0 {
        Fx { raw: -a.raw, fin: true }
    } else {
        Fx { raw: a.raw, fin: true }
    }
}

pub fn fx_mul(a: Fx, b: Fx) -> (r: Fx)
    ensures
        r == spec_fx_mul(a, b),
{
    if !a.fin || !b.fin {
        return Fx { raw: 0, fin: false };
    }
    proof {
        lemma_mul_le(
            a.raw as int,
            b.raw as int,
            0x8000_0000_0000_0000,
            0x8000_0000_0000_0000,
        );
    }
    let p: i128 = (a.raw as i128) * (b.raw as i128);
    let neg: bool = p < 0;
    let m: u128 = if neg {
        (-p) as u128
    } else {
        p as u128
    };
    assert(m == iabs(a.raw * b.raw));
    let q: u128 = m / 65536;
    if q > 0x7fff_ffff_ffff_ffff {
        return Fx { raw: 0, fin: false };
    }
    let qi: i64 = q as i64;
    let raw: i64 = if neg {
        -qi
    } else {
        qi
    };
    Fx { raw, fin: true }
}

pub fn fx_div(a: Fx, b: Fx) -> (r: Fx)
    ensures
        r == spec_fx_div(a, b),
{
    if !a.fin || !b.fin || b.raw == 0 {
        return Fx { raw: 0, fin: false };
    }
    let p: i128 = (a.raw as i128) * 65536;
    let neg: bool = (a.raw < 0) != (b.raw < 0);
    let m: u128 = if p < 0 {
        (-p) as u128
    } else {
        p as u128
    };
    let d: u128 = if b.raw < 0 {
        (-(b.raw as i128)) as u128
    } else {
        b.raw as u128
    };
    assert(m == iabs(a.raw * FX_ONE));
    assert(d == iabs(b.raw as int));
    let q: u128 = m / d;
    proof {
        lemma_div_is_ordered_by_denominator(m as int, 1, d as int);
    }
    if q > 0x7fff_ffff_ffff_ffff {
        return Fx { raw: 0, fin: false };
    }
    let qi: i64 = q as i64;
    let raw: i64 = if neg {
        -qi
    } else {
        qi
    };
    Fx { raw, fin: true }
}

pub fn fx_clamp(a: Fx, lo: i64, hi: i64) -> (r: Fx)
    requires
        lo <= hi,
    ensures
        r == spec_fx_clamp(a, lo, hi),
{
    if !a.fin {
        Fx { raw: 0, fin: false }
    } else if a.raw < lo {
        Fx { raw: lo, fin: true }
    } else if a.raw > hi {
        Fx { raw: hi, fin: true }
    } else {
        a
    }
}

/// The integer square root: the unique `r >= 0` with
/// `r * r <= n < (r + 1) * (r + 1)` (meaningful for `n >= 0`).
pub open spec fn spec_isqrt(n: int) -> int {
    choose|r: int| 0 <= r && #[trigger] (r * r) <= n && n < (r + 1) * (r + 1)
}

/// The integer square root is unique.
pub proof fn lemma_isqrt_unique(n: int, r: int)
    requires
        0 <= r,
        r * r <= n,
        n < (r + 1) * (r + 1),
    ensures
        r == spec_isqrt(n),
{
    let c: int = spec_isqrt(n);
    assert(0 <= c && c * c <= n && n < (c + 1) * (c + 1));
    assert(c == r) by (nonlinear_arith)
        requires
            0 <= r,
            r * r <= n,
            n < (r + 1) * (r + 1),
            0 <= c,
            c * c <= n,
            n < (c + 1) * (c + 1),
    ;
}

/// Binary-search integer square root.
pub fn isqrt_u128(n: u128) -> (r: u64)
    ensures
        r as int == spec_isqrt(n as int),
{
    let mut lo: u64 = 0;
    let mut hi: u64 = 0xffff_ffff_ffff_ffff;
    proof {
        assert((0x1_0000_0000_0000_0000u128 as int) * (0x1_0000_0000_0000_0000u128 as int)
            > n as int) by (nonlinear_arith)
            requires
                n <= 0xffff_ffff_ffff_ffff_ffff_ffff_ffff_ffff,
        ;
    }
    while lo < hi
        invariant
            lo <= hi,
            (lo as int) * (lo as int) <= n as int,
            (n as int) < ((hi as int) + 1) * ((hi as int) + 1),
        decreases hi - lo,
    {
        proof {
            lemma_div_decreases((hi - lo) as int, 2);
        }
        let mid: u64 = lo + (hi - lo) / 2 + 1;
        proof {
            lemma_mul_le(mid as int, mid as int, 0xffff_ffff_ffff_ffff, 0xffff_ffff_ffff_ffff);
        }
        let sq: u128 = (mid as u128) * (mid as u128);
        if sq <= n {
            lo = mid;
        } else {
            hi = mid - 1;
        }
    }
    proof {
        lemma_isqrt_unique(n as int, lo as int);
    }
    lo
}

/// One normalized component: the raw value divided by a positive length,
/// non-finite on overflow.
pub open spec fn spec_norm_div(raw: int, len: int) -> Fx {
    if fx_representable(tdiv(raw * FX_ONE, len)) {
        fx_fin(tdiv(raw * FX_ONE, len))
    } else {
        fx_nonfin()
    }
}

pub(crate) fn norm_div(raw: i64, len: u64) -> (r: Fx)
    requires
        len > 0,
    ensures
        r == spec_norm_div(raw as int, len as int),
{
    let neg: bool = raw < 0;
    let m: u128 = if neg {
        (-(raw as i128)) as u128
    } else {
        raw as u128
    };
    let num: u128 = m * 65536;
    assert(num == iabs(raw * FX_ONE));
    let q: u128 = num / (len as u128);
    proof {
        lemma_div_is_ordered(num as int, 0x8000_0000_0000_0000_0000, len as int);
        lemma_div_pos_is_pos(num as int, len as int);
    }
    if q > 0x7fff_ffff_ffff_ffff {
        return Fx { raw: 0, fin: false };
    }
    let qi: i64 = q as i64;
    if neg {
        Fx { raw: -qi, fin: true }
    } else {
        Fx { raw: qi, fin: true }
    }
}

/// The unit vector with the direction of `v`: each component divided by the
/// vector's length. Non-finite components result from a non-finite input or
/// the zero vector (whose direction is undefined).
pub open spec fn spec_fx2_normalize(v: Fx2) -> Fx2 {
    if !v.x.fin || !v.y.fin {
        Fx2 { x: fx_nonfin(), y: fx_nonfin() }
    } else {
        let ss: int = v.x.raw * v.x.raw + v.y.raw * v.y.raw;
        let len: int = spec_isqrt(ss);
        if len == 0 {
            Fx2 { x: fx_nonfin(), y: fx_nonfin() }
        } else {
            Fx2 { x: spec_norm_div(v.x.raw as int, len), y: spec_norm_div(v.y.raw as int, len) }
        }
    }
}

impl Fx2 {
    /// Normalize to unit length (callers store directions normalized).
    pub fn normalize(self) -> (r: Fx2)
        ensures
            r == spec_fx2_normalize(self),
    {
        if !self.x.fin || !self.y.fin {
            return Fx2 { x: Fx { raw: 0, fin: false }, y: Fx { raw: 0, fin: false } };
        }
        proof {
            lemma_mul_le(
                self.x.raw as int,
                self.x.raw as int,
                0x8000_0000_0000_0000,
                0x8000_0000_0000_0000,
            );
            lemma_mul_le(
                self.y.raw as int,
                self.y.raw as int,
                0x8000_0000_0000_0000,
                0x8000_0000_0000_0000,
            );
            assert((self.x.raw as int) * (self.x.raw as int) >= 0) by (nonlinear_arith);
            assert((self.y.raw as int) * (self.y.raw as int) >= 0) by (nonlinear_arith);
        }
        let sx: u128 = ((self.x.raw as i128) * (self.x.raw as i128)) as u128;
        let sy: u128 = ((self.y.raw as i128) * (self.y.raw as i128)) as u128;
        let ss: u128 = sx + sy;
        let len: u64 = isqrt_u128(ss);
        if len == 0 {
            return Fx2 { x: Fx { raw: 0, fin: false }, y: Fx { raw: 0, fin: false } };
        }
        Fx2 { x: norm_div(self.x.raw, len), y: norm_div(self.y.raw, len) }
    }
}

/// Floor and fractional part of a finite raw value on the unit lattice:
/// returns `(c, f)` with `raw == c * 65536 + f` and `0 <= f < 65536`.
pub fn fx_floor_split(raw: i64) -> (r: (i64, i64))
    ensures
        r.0 == (raw as int) / (FX_ONE as int),
        r.1 == (raw as int) % (FX_ONE as int),
{
    let neg: bool = raw < 0;
    let mag: u64 = if neg {
        (-(raw as i128)) as u64
    } else {
        raw as u64
    };
    let q: u64 = mag / 65536;
    let f: u64 = mag % 65536;
    if neg {
        if f == 0 {
            proof {
                lemma_fundamental_div_mod_converse(raw as int, 65536, -(q as int), 0);
            }
            (-(q as i64), 0)
        } else {
            proof {
                lemma_fundamental_div_mod_converse(
                    raw as int,
                    65536,
                    -(q as int) - 1,
                    65536 - (f as int),
                );
            }
            (-(q as i64) - 1, 65536 - (f as i64))
        }
    } else {
        proof {
            lemma_fundamental_div_mod_converse(raw as int, 65536, q as int, f as int);
        }
        (q as i64, f as i64)
    }
}

} // verus!
