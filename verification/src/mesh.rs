//! Grid sampling and mesh extraction.
//!
//! The assembled field is sampled once per vertex of an `(N+1) x (N+1)` grid
//! spanning `[-size/2, size/2]` on both ground axes (a single materialized
//! height buffer is the sole source of truth for positions and normals), the
//! `N x N` quads are split into indexed triangles with a fixed winding, and
//! per-vertex normals are estimated by central differences on the height
//! buffer, with neighbor lookups clamped at the grid border and an
//! up-pointing fallback wherever the gradient is not finite.

use vstd::prelude::*;
use vstd::arithmetic::div_mod::*;
use crate::error::TerrainError;
use crate::fx::{
    Fx, Fx2, Fx3, FX_ONE, fx_fin, spec_fx_add, spec_fx_sub, spec_fx_mul, spec_fx_div,
    spec_fx_neg, spec_fx_from_int, spec_isqrt, spec_norm_div, fx_add, fx_sub, fx_mul, fx_div,
    fx_neg, norm_div, isqrt_u128, lemma_mul_le,
};
use crate::height::HeightSource;
use crate::params::{TerrainParams, MAX_RES, spec_params_valid};

verus! {

/// The finished terrain mesh: one position, normal and texture coordinate
/// per vertex, and a triangle-list index buffer. Immutable after
/// construction; the rendering collaborator owns it thereafter.
pub struct Mesh {
    pub positions: Vec<Fx3>,
    pub normals: Vec<Fx3>,
    pub uvs: Vec<Fx2>,
    pub indices: Vec<u32>,
}

/// Vertices per grid side: the resolution plus one.
pub open spec fn spec_vcount(res: u32) -> int {
    res + 1
}

/// Half the world size, for centering the grid on the origin.
pub open spec fn spec_half(size: Fx) -> Fx {
    spec_fx_mul(size, fx_fin(32768))
}

/// Vertex spacing along an axis.
pub open spec fn spec_step(size: Fx, res: u32) -> Fx {
    spec_fx_div(size, spec_fx_from_int(res as int))
}

/// World coordinate of grid line `i`: `-size/2 + i * step`.
pub open spec fn spec_grid_coord(size: Fx, res: u32, i: int) -> Fx {
    spec_fx_add(
        spec_fx_neg(spec_half(size)),
        spec_fx_mul(spec_fx_from_int(i), spec_step(size, res)),
    )
}

/// The materialized height buffer: the field read once at every grid vertex,
/// row-major (`k = j * (res + 1) + i`).
pub open spec fn spec_heights<S: HeightSource>(s: S, size: Fx, res: u32) -> Seq<Fx> {
    Seq::new(
        (spec_vcount(res) * spec_vcount(res)) as nat,
        |k: int|
            s.spec_height(
                spec_grid_coord(size, res, k % spec_vcount(res)),
                spec_grid_coord(size, res, k / spec_vcount(res)),
            ),
    )
}

/// Vertex positions: the grid point on the ground plane, elevated by the
/// materialized height.
pub open spec fn spec_positions(heights: Seq<Fx>, size: Fx, res: u32) -> Seq<Fx3> {
    Seq::new(
        heights.len(),
        |k: int|
            Fx3 {
                x: spec_grid_coord(size, res, k % spec_vcount(res)),
                y: heights[k],
                z: spec_grid_coord(size, res, k / spec_vcount(res)),
            },
    )
}

/// Texture coordinate of grid line `i`: `i / res`.
pub open spec fn spec_uv(res: u32, i: int) -> Fx {
    spec_fx_div(spec_fx_from_int(i), spec_fx_from_int(res as int))
}

/// Per-vertex texture coordinates `(i / res, j / res)`.
pub open spec fn spec_uvs(res: u32) -> Seq<Fx2> {
    Seq::new(
        (spec_vcount(res) * spec_vcount(res)) as nat,
        |k: int|
            Fx2 {
                x: spec_uv(res, k % spec_vcount(res)),
                y: spec_uv(res, k / spec_vcount(res)),
            },
    )
}

/// Entry `r` (0..6) of quad `q`'s six indices: the two triangles
/// `(i0, i2, i1)` and `(i1, i2, i3)` over the quad's row-major corners
/// `i0 = i1 - 1 = q/res * (res+1) + q%res`, `i2 = i0 + res + 1`,
/// `i3 = i2 + 1`. The winding decides front-face orientation for lighting
/// and is fixed.
pub open spec fn spec_quad_corner(res: u32, q: int, r: int) -> int {
    let i0: int = (q / (res as int)) * spec_vcount(res) + (q % (res as int));
    let i1: int = i0 + 1;
    let i2: int = i0 + spec_vcount(res);
    let i3: int = i2 + 1;
    if r == 0 {
        i0
    } else if r == 1 {
        i2
    } else if r == 2 {
        i1
    } else if r == 3 {
        i1
    } else if r == 4 {
        i2
    } else {
        i3
    }
}

/// The triangle-list index buffer: six entries per quad, `6 * res^2` in all.
pub open spec fn spec_indices(res: u32) -> Seq<u32> {
    Seq::new(
        (6 * ((res as int) * (res as int))) as nat,
        |t: int| spec_quad_corner(res, t / 6, t % 6) as u32,
    )
}

/// Row-major index stays inside the vertex array.
pub proof fn lemma_rm_index(vc: int, i: int, j: int)
    requires
        0 <= i < vc,
        0 <= j < vc,
    ensures
        0 <= j * vc + i < vc * vc,
{
    assert(0 <= j * vc + i < vc * vc) by (nonlinear_arith)
        requires
            0 <= i < vc,
            0 <= j < vc,
    ;
}

/// Split a flat row-major vertex index into its column and row.
pub proof fn lemma_rm_split(vc: int, k: int)
    requires
        0 < vc,
        0 <= k < vc * vc,
    ensures
        0 <= k % vc < vc,
        0 <= k / vc < vc,
        (k / vc) * vc + (k % vc) == k,
{
    lemma_mod_division_less_than_divisor(k, vc);
    lemma_div_pos_is_pos(k, vc);
    lemma_multiply_divide_lt(k, vc, vc);
    lemma_fundamental_div_mod(k, vc);
    assert(vc * (k / vc) == (k / vc) * vc) by (nonlinear_arith);
}

/// World coordinate of grid line `i` (executable).
pub fn grid_coord(size: Fx, res: u32, i: usize) -> (r: Fx)
    requires
        i < 65536,
    ensures
        r == spec_grid_coord(size, res, i as int),
{
    let half: Fx = fx_mul(size, Fx::from_raw(32768));
    let step: Fx = fx_div(size, Fx::from_int(res as i64));
    fx_add(fx_neg(half), fx_mul(Fx::from_int(i as i64), step))
}

/// Materialize the height buffer: evaluate the field once per grid vertex,
/// row-major. This buffer is the single source of truth for both positions
/// and normals, so both are derived from the exact same values.
pub fn sample_heights<S: HeightSource>(field: &S, size: Fx, res: u32) -> (r: Vec<Fx>)
    requires
        1 <= res <= MAX_RES,
    ensures
        r@ == spec_heights(*field, size, res),
{
    let vc: usize = (res as usize) + 1;
    proof {
        lemma_mul_le(vc as int, vc as int, 16384, 16384);
    }
    let total: usize = vc * vc;
    let mut out: Vec<Fx> = Vec::new();
    let mut k: usize = 0;
    while k < total
        invariant
            1 <= res <= MAX_RES,
            vc == res + 1,
            total == vc * vc,
            k <= total,
            out@.len() == k as int,
            forall|m: int|
                0 <= m < k as int ==> out@[m] == spec_heights(*field, size, res)[m],
        decreases total - k,
    {
        proof {
            lemma_rm_split(vc as int, k as int);
        }
        let i: usize = k % vc;
        let j: usize = k / vc;
        let x: Fx = grid_coord(size, res, i);
        let z: Fx = grid_coord(size, res, j);
        let h: Fx = field.height_at(x, z);
        out.push(h);
        k = k + 1;
    }
    proof {
        assert(out@ =~= spec_heights(*field, size, res));
    }
    out
}

/// Build the vertex position array over a materialized height buffer.
pub fn build_positions(heights: &Vec<Fx>, size: Fx, res: u32) -> (r: Vec<Fx3>)
    requires
        1 <= res <= MAX_RES,
        heights@.len() == spec_vcount(res) * spec_vcount(res),
    ensures
        r@ == spec_positions(heights@, size, res),
{
    let vc: usize = (res as usize) + 1;
    proof {
        lemma_mul_le(vc as int, vc as int, 16384, 16384);
    }
    let total: usize = vc * vc;
    let mut out: Vec<Fx3> = Vec::new();
    let mut k: usize = 0;
    while k < total
        invariant
            1 <= res <= MAX_RES,
            vc == res + 1,
            total == vc * vc,
            heights@.len() == total as int,
            k <= total,
            out@.len() == k as int,
            forall|m: int|
                0 <= m < k as int ==> out@[m] == spec_positions(heights@, size, res)[m],
        decreases total - k,
    {
        proof {
            lemma_rm_split(vc as int, k as int);
        }
        let i: usize = k % vc;
        let j: usize = k / vc;
        let x: Fx = grid_coord(size, res, i);
        let z: Fx = grid_coord(size, res, j);
        let y: Fx = heights[k];
        out.push(Fx3 { x, y, z });
        k = k + 1;
    }
    proof {
        assert(out@ =~= spec_positions(heights@, size, res));
    }
    out
}

/// Build the per-vertex texture coordinates.
pub fn build_uvs(res: u32) -> (r: Vec<Fx2>)
    requires
        1 <= res <= MAX_RES,
    ensures
        r@ == spec_uvs(res),
{
    let vc: usize = (res as usize) + 1;
    proof {
        lemma_mul_le(vc as int, vc as int, 16384, 16384);
    }
    let total: usize = vc * vc;
    let mut out: Vec<Fx2> = Vec::new();
    let mut k: usize = 0;
    while k < total
        invariant
            1 <= res <= MAX_RES,
            vc == res + 1,
            total == vc * vc,
            k <= total,
            out@.len() == k as int,
            forall|m: int| 0 <= m < k as int ==> out@[m] == spec_uvs(res)[m],
        decreases total - k,
    {
        proof {
            lemma_rm_split(vc as int, k as int);
        }
        let i: usize = k % vc;
        let j: usize = k / vc;
        let u: Fx = fx_div(Fx::from_int(i as i64), Fx::from_int(res as i64));
        let v: Fx = fx_div(Fx::from_int(j as i64), Fx::from_int(res as i64));
        out.push(Fx2 { x: u, y: v });
        k = k + 1;
    }
    proof {
        assert(out@ =~= spec_uvs(res));
    }
    out
}

/// Build the triangle-list index buffer: for each quad, the two triangles
/// `(i0, i2, i1)` and `(i1, i2, i3)` over its row-major corners.
pub fn build_indices(res: u32) -> (r: Vec<u32>)
    requires
        1 <= res <= MAX_RES,
    ensures
        r@ == spec_indices(res),
{
    let rs: usize = res as usize;
    let vc: usize = rs + 1;
    proof {
        lemma_mul_le(rs as int, rs as int, 16383, 16383);
    }
    let quads: usize = rs * rs;
    let mut out: Vec<u32> = Vec::new();
    let mut q: usize = 0;
    while q < quads
        invariant
            1 <= res <= MAX_RES,
            rs == res,
            vc == res + 1,
            quads == rs * rs,
            q <= quads,
            out@.len() == 6 * q as int,
            forall|t: int| 0 <= t < 6 * q as int ==> out@[t] == spec_indices(res)[t],
        decreases quads - q,
    {
        proof {
            lemma_rm_split(rs as int, q as int);
        }
        let qi: usize = q % rs;
        let qj: usize = q / rs;
        proof {
            lemma_rm_index(vc as int, qi as int, qj as int);
            lemma_mul_le(qj as int, vc as int, 16383, 16384);
        }
        let i0: usize = qj * vc + qi;
        let i1: usize = i0 + 1;
        let i2: usize = i0 + vc;
        let i3: usize = i2 + 1;
        proof {
            assert((qj as int) * (vc as int) + (qi as int) + (vc as int) + 1 < (vc as int) * (
            vc as int)) by (nonlinear_arith)
                requires
                    0 <= (qi as int) && (qi as int) < (rs as int),
                    0 <= (qj as int) && (qj as int) < (rs as int),
                    vc as int == rs as int + 1,
            ;
            lemma_mul_le(vc as int, vc as int, 16384, 16384);
        }
        out.push(i0 as u32);
        out.push(i2 as u32);
        out.push(i1 as u32);
        out.push(i1 as u32);
        out.push(i2 as u32);
        out.push(i3 as u32);
        proof {
            let qq: int = q as int;
            lemma_fundamental_div_mod_converse(6 * qq + 0, 6, qq, 0);
            lemma_fundamental_div_mod_converse(6 * qq + 1, 6, qq, 1);
            lemma_fundamental_div_mod_converse(6 * qq + 2, 6, qq, 2);
            lemma_fundamental_div_mod_converse(6 * qq + 3, 6, qq, 3);
            lemma_fundamental_div_mod_converse(6 * qq + 4, 6, qq, 4);
            lemma_fundamental_div_mod_converse(6 * qq + 5, 6, qq, 5);
        }
        q = q + 1;
    }
    proof {
        assert(out@ =~= spec_indices(res));
    }
    out
}


/// The up-pointing unit normal, the fallback for degenerate gradients.
pub open spec fn spec_up() -> Fx3 {
    Fx3 { x: fx_fin(0), y: fx_fin(FX_ONE as int), z: fx_fin(0) }
}

/// The vertex normal from the negated slopes: `(nx, 1, nz)` normalized to
/// unit length, or straight up if a slope is not finite (the local
/// fallback that keeps lighting intact around a degenerate sample).
pub open spec fn spec_normal_vec(nx: Fx, nz: Fx) -> Fx3 {
    if !nx.fin || !nz.fin {
        spec_up()
    } else {
        let ss: int = nx.raw * nx.raw + (FX_ONE as int) * (FX_ONE as int) + nz.raw * nz.raw;
        let len: int = spec_isqrt(ss);
        if len == 0 {
            spec_up()
        } else {
            Fx3 {
                x: spec_norm_div(nx.raw as int, len),
                y: spec_norm_div(FX_ONE as int, len),
                z: spec_norm_div(nz.raw as int, len),
            }
        }
    }
}

/// The four clamped stencil indices (left, right, down, up) whose heights
/// the central difference at vertex `k` reads; border vertices reuse their
/// own row or column.
pub open spec fn spec_stencil(res: u32, k: int) -> (int, int, int, int) {
    let vc: int = spec_vcount(res);
    let i: int = k % vc;
    let j: int = k / vc;
    (
        j * vc + (if i == 0 { 0int } else { i - 1 }),
        j * vc + (if i + 1 < vc { i + 1 } else { vc - 1 }),
        (if j == 0 { 0int } else { j - 1 }) * vc + i,
        (if j + 1 < vc { j + 1 } else { vc - 1 }) * vc + i,
    )
}

/// The normal at vertex `k`: symmetric neighbor differences over the
/// clamped stencil, divided by twice the vertex spacing, then normalized
/// with the up fallback.
pub open spec fn spec_normal_at(heights: Seq<Fx>, size: Fx, res: u32, k: int) -> Fx3 {
    let st = spec_stencil(res, k);
    let step2: Fx = spec_fx_mul(spec_fx_from_int(2), spec_step(size, res));
    let sx: Fx = spec_fx_div(spec_fx_sub(heights[st.1], heights[st.0]), step2);
    let sz: Fx = spec_fx_div(spec_fx_sub(heights[st.3], heights[st.2]), step2);
    spec_normal_vec(spec_fx_neg(sx), spec_fx_neg(sz))
}

/// Per-vertex normals over a materialized height buffer.
pub open spec fn spec_normals(heights: Seq<Fx>, size: Fx, res: u32) -> Seq<Fx3> {
    Seq::new(heights.len(), |k: int| spec_normal_at(heights, size, res, k))
}

pub(crate) fn normal_vec(nx: Fx, nz: Fx) -> (r: Fx3)
    ensures
        r == spec_normal_vec(nx, nz),
{
    if !nx.fin || !nz.fin {
        return Fx3 {
            x: Fx { raw: 0, fin: true },
            y: Fx { raw: FX_ONE, fin: true },
            z: Fx { raw: 0, fin: true },
        };
    }
    proof {
        lemma_mul_le(nx.raw as int, nx.raw as int, 0x8000_0000_0000_0000, 0x8000_0000_0000_0000);
        lemma_mul_le(nz.raw as int, nz.raw as int, 0x8000_0000_0000_0000, 0x8000_0000_0000_0000);
        assert((nx.raw as int) * (nx.raw as int) >= 0) by (nonlinear_arith);
        assert((nz.raw as int) * (nz.raw as int) >= 0) by (nonlinear_arith);
    }
    let sx: u128 = ((nx.raw as i128) * (nx.raw as i128)) as u128;
    let sz: u128 = ((nz.raw as i128) * (nz.raw as i128)) as u128;
    let ss: u128 = sx + 4294967296 + sz;
    let len: u64 = isqrt_u128(ss);
    if len == 0 {
        Fx3 {
            x: Fx { raw: 0, fin: true },
            y: Fx { raw: FX_ONE, fin: true },
            z: Fx { raw: 0, fin: true },
        }
    } else {
        Fx3 { x: norm_div(nx.raw, len), y: norm_div(FX_ONE, len), z: norm_div(nz.raw, len) }
    }
}

/// Build the per-vertex normals by central differences on the height
/// buffer, clamping neighbor lookups at the grid border and falling back to
/// the up vector wherever the gradient is not finite.
pub fn build_normals(heights: &Vec<Fx>, size: Fx, res: u32) -> (r: Vec<Fx3>)
    requires
        1 <= res <= MAX_RES,
        heights@.len() == spec_vcount(res) * spec_vcount(res),
    ensures
        r@ == spec_normals(heights@, size, res),
{
    let vc: usize = (res as usize) + 1;
    proof {
        lemma_mul_le(vc as int, vc as int, 16384, 16384);
    }
    let total: usize = vc * vc;
    let step2: Fx = fx_mul(Fx::from_int(2), fx_div(size, Fx::from_int(res as i64)));
    let mut out: Vec<Fx3> = Vec::new();
    let mut k: usize = 0;
    while k < total
        invariant
            1 <= res <= MAX_RES,
            vc == res + 1,
            total == vc * vc,
            heights@.len() == total as int,
            step2 == spec_fx_mul(spec_fx_from_int(2), spec_step(size, res)),
            k <= total,
            out@.len() == k as int,
            forall|m: int|
                0 <= m < k as int ==> out@[m] == spec_normals(heights@, size, res)[m],
        decreases total - k,
    {
        proof {
            lemma_rm_split(vc as int, k as int);
        }
        let i: usize = k % vc;
        let j: usize = k / vc;
        let li: usize = if i == 0 {
            0
        } else {
            i - 1
        };
        let ri: usize = if i + 1 < vc {
            i + 1
        } else {
            vc - 1
        };
        let dj: usize = if j == 0 {
            0
        } else {
            j - 1
        };
        let uj: usize = if j + 1 < vc {
            j + 1
        } else {
            vc - 1
        };
        proof {
            lemma_rm_index(vc as int, li as int, j as int);
            lemma_rm_index(vc as int, ri as int, j as int);
            lemma_rm_index(vc as int, i as int, dj as int);
            lemma_rm_index(vc as int, i as int, uj as int);
        }
        let hl: Fx = heights[j * vc + li];
        let hr: Fx = heights[j * vc + ri];
        let hd: Fx = heights[dj * vc + i];
        let hu: Fx = heights[uj * vc + i];
        let sx: Fx = fx_div(fx_sub(hr, hl), step2);
        let sz: Fx = fx_div(fx_sub(hu, hd), step2);
        let n: Fx3 = normal_vec(fx_neg(sx), fx_neg(sz));
        proof {
            assert(n == spec_normal_at(heights@, size, res, k as int));
        }
        out.push(n);
        k = k + 1;
    }
    proof {
        assert(out@ =~= spec_normals(heights@, size, res));
    }
    out
}

/// Build a terrain mesh from a configuration and an already materialized
/// height buffer (one value per grid vertex, row-major). Rejects an invalid
/// configuration or a buffer of the wrong length before building anything.
pub fn build_mesh_from_grid(p: TerrainParams, heights: &Vec<Fx>) -> (r: Result<
    Mesh,
    TerrainError,
>)
    ensures
        (spec_params_valid(p) && heights@.len() == spec_vcount(p.res) * spec_vcount(p.res))
            <==> r is Ok,
        r matches Ok(m) ==> m.positions@ == spec_positions(heights@, p.size, p.res)
            && m.normals@ == spec_normals(heights@, p.size, p.res) && m.uvs@ == spec_uvs(p.res)
            && m.indices@ == spec_indices(p.res),
        r is Err ==> r == Err::<Mesh, TerrainError>(TerrainError::InvalidParameter),
{
    if !(p.size.fin && p.size.raw > 0 && 1 <= p.res && p.res <= MAX_RES && p.freq.fin
        && p.freq.raw > 0) {
        return Err(TerrainError::InvalidParameter);
    }
    let vc: usize = (p.res as usize) + 1;
    proof {
        lemma_mul_le(vc as int, vc as int, 16384, 16384);
    }
    if heights.len() != vc * vc {
        return Err(TerrainError::InvalidParameter);
    }
    let positions: Vec<Fx3> = build_positions(heights, p.size, p.res);
    let normals: Vec<Fx3> = build_normals(heights, p.size, p.res);
    let uvs: Vec<Fx2> = build_uvs(p.res);
    let indices: Vec<u32> = build_indices(p.res);
    Ok(Mesh { positions, normals, uvs, indices })
}

/// Build the terrain mesh for a configuration and a field: materialize the
/// heights in a single pass, then derive positions, texture coordinates,
/// indices and central-difference normals from that one buffer. The sole
/// failure is an invalid configuration, rejected before any sampling.
pub fn build_europa_mesh<S: HeightSource>(p: TerrainParams, height: &S) -> (r: Result<
    Mesh,
    TerrainError,
>)
    ensures
        spec_params_valid(p) <==> r is Ok,
        r matches Ok(m) ==> m.positions@ == spec_positions(
            spec_heights(*height, p.size, p.res),
            p.size,
            p.res,
        ) && m.normals@ == spec_normals(spec_heights(*height, p.size, p.res), p.size, p.res)
            && m.uvs@ == spec_uvs(p.res) && m.indices@ == spec_indices(p.res),
        r is Err ==> r == Err::<Mesh, TerrainError>(TerrainError::InvalidParameter),
{
    if !(p.size.fin && p.size.raw > 0 && 1 <= p.res && p.res <= MAX_RES && p.freq.fin
        && p.freq.raw > 0) {
        return Err(TerrainError::InvalidParameter);
    }
    let heights: Vec<Fx> = sample_heights(height, p.size, p.res);
    build_mesh_from_grid(p, &heights)
}

/// Grid topology: resolution `res` yields exactly `(res + 1)^2` vertices
/// (and as many normals and texture coordinates), `6 * res^2` triangle
/// indices, and every index lies below the vertex count.
pub proof fn lemma_grid_topology(heights: Seq<Fx>, size: Fx, res: u32)
    requires
        1 <= res <= MAX_RES,
        heights.len() == spec_vcount(res) * spec_vcount(res),
    ensures
        spec_positions(heights, size, res).len() == spec_vcount(res) * spec_vcount(res),
        spec_normals(heights, size, res).len() == spec_vcount(res) * spec_vcount(res),
        spec_uvs(res).len() == spec_vcount(res) * spec_vcount(res),
        spec_indices(res).len() == 6 * ((res as int) * (res as int)),
        forall|t: int|
            0 <= t < spec_indices(res).len() ==> (spec_indices(res)[t] as int) < spec_vcount(res)
                * spec_vcount(res),
{
    let vc: int = spec_vcount(res);
    let rr: int = res as int;
    assert forall|t: int|
        0 <= t < spec_indices(res).len() implies (spec_indices(res)[t] as int) < spec_vcount(res)
        * spec_vcount(res) by {
        lemma_mod_division_less_than_divisor(t, 6);
        lemma_div_pos_is_pos(t, 6);
        lemma_multiply_divide_lt(t, 6, rr * rr);
        let q: int = t / 6;
        lemma_rm_split(rr, q);
        let qi: int = q % rr;
        let qj: int = q / rr;
        assert(0 <= qj * vc + qi && qj * vc + qi + vc + 1 < vc * vc) by (nonlinear_arith)
            requires
                0 <= qi && qi < rr,
                0 <= qj && qj < rr,
                vc == rr + 1,
        ;
    }
}

/// Index winding: quad `q` (row-major cell `(q % res, q / res)`) emits
/// exactly the triangles `(i0, i2, i1)` and `(i1, i2, i3)` over its four
/// corners, and neither triangle repeats an index (no degenerate
/// triangles).
pub proof fn lemma_index_winding(res: u32, q: int)
    requires
        1 <= res <= MAX_RES,
        0 <= q < (res as int) * (res as int),
    ensures
        ({
            let vc: int = spec_vcount(res);
            let i0: int = (q / (res as int)) * vc + (q % (res as int));
            let i1: int = i0 + 1;
            let i2: int = i0 + vc;
            let i3: int = i2 + 1;
            &&& spec_indices(res)[6 * q + 0] == i0 as u32
            &&& spec_indices(res)[6 * q + 1] == i2 as u32
            &&& spec_indices(res)[6 * q + 2] == i1 as u32
            &&& spec_indices(res)[6 * q + 3] == i1 as u32
            &&& spec_indices(res)[6 * q + 4] == i2 as u32
            &&& spec_indices(res)[6 * q + 5] == i3 as u32
            &&& spec_indices(res)[6 * q + 0] != spec_indices(res)[6 * q + 1]
            &&& spec_indices(res)[6 * q + 1] != spec_indices(res)[6 * q + 2]
            &&& spec_indices(res)[6 * q + 2] != spec_indices(res)[6 * q + 0]
            &&& spec_indices(res)[6 * q + 3] != spec_indices(res)[6 * q + 4]
            &&& spec_indices(res)[6 * q + 4] != spec_indices(res)[6 * q + 5]
            &&& spec_indices(res)[6 * q + 5] != spec_indices(res)[6 * q + 3]
        }),
{
    let vc: int = spec_vcount(res);
    let rr: int = res as int;
    lemma_fundamental_div_mod_converse(6 * q + 0, 6, q, 0);
    lemma_fundamental_div_mod_converse(6 * q + 1, 6, q, 1);
    lemma_fundamental_div_mod_converse(6 * q + 2, 6, q, 2);
    lemma_fundamental_div_mod_converse(6 * q + 3, 6, q, 3);
    lemma_fundamental_div_mod_converse(6 * q + 4, 6, q, 4);
    lemma_fundamental_div_mod_converse(6 * q + 5, 6, q, 5);
    lemma_rm_split(rr, q);
    let qi: int = q % rr;
    let qj: int = q / rr;
    assert(0 <= qj * vc + qi && qj * vc + qi + vc + 1 < vc * vc) by (nonlinear_arith)
        requires
            0 <= qi && qi < rr,
            0 <= qj && qj < rr,
            vc == rr + 1,
    ;
    assert(vc * vc <= 0x1_0000_0000) by (nonlinear_arith)
        requires
            2 <= vc <= 16384,
    ;
}

/// The degeneracy fallback is local, first half: a vertex whose clamped
/// central-difference stencil contains a non-finite height gets exactly the
/// up normal, never a garbage direction.
pub proof fn lemma_normal_fallback(heights: Seq<Fx>, size: Fx, res: u32, k: int)
    requires
        1 <= res <= MAX_RES,
        heights.len() == spec_vcount(res) * spec_vcount(res),
        0 <= k < spec_vcount(res) * spec_vcount(res),
    ensures
        (!heights[spec_stencil(res, k).0].fin || !heights[spec_stencil(res, k).1].fin
            || !heights[spec_stencil(res, k).2].fin || !heights[spec_stencil(res, k).3].fin)
            ==> spec_normals(heights, size, res)[k] == spec_up(),
{
}

/// The degeneracy fallback is local, second half: the normal at a vertex is
/// a function of its four stencil heights and the spacing alone, so a
/// non-finite sample leaves every vertex outside its stencil with the
/// ordinary central-difference normal.
pub proof fn lemma_normal_locality(h1: Seq<Fx>, h2: Seq<Fx>, size: Fx, res: u32, k: int)
    requires
        1 <= res <= MAX_RES,
        h1.len() == spec_vcount(res) * spec_vcount(res),
        h2.len() == spec_vcount(res) * spec_vcount(res),
        0 <= k < spec_vcount(res) * spec_vcount(res),
        h1[spec_stencil(res, k).0] == h2[spec_stencil(res, k).0],
        h1[spec_stencil(res, k).1] == h2[spec_stencil(res, k).1],
        h1[spec_stencil(res, k).2] == h2[spec_stencil(res, k).2],
        h1[spec_stencil(res, k).3] == h2[spec_stencil(res, k).3],
    ensures
        spec_normals(h1, size, res)[k] == spec_normals(h2, size, res)[k],
{
}

/// Determinism: the mesh arrays are a pure function of the configuration
/// and the field, so repeated builds from equal inputs produce identical
/// position, normal, texture and index arrays.
pub proof fn lemma_build_deterministic<S: HeightSource>(p: TerrainParams, field: S, m1: Mesh, m2: Mesh)
    requires
        m1.positions@ == spec_positions(spec_heights(field, p.size, p.res), p.size, p.res),
        m1.normals@ == spec_normals(spec_heights(field, p.size, p.res), p.size, p.res),
        m1.uvs@ == spec_uvs(p.res),
        m1.indices@ == spec_indices(p.res),
        m2.positions@ == spec_positions(spec_heights(field, p.size, p.res), p.size, p.res),
        m2.normals@ == spec_normals(spec_heights(field, p.size, p.res), p.size, p.res),
        m2.uvs@ == spec_uvs(p.res),
        m2.indices@ == spec_indices(p.res),
    ensures
        m1.positions@ == m2.positions@,
        m1.normals@ == m2.normals@,
        m1.uvs@ == m2.uvs@,
        m1.indices@ == m2.indices@,
{
}


} // verus!
