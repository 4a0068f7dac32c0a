use europa_terrain::fx::{fx_div, Fx, Fx2, FX_ONE};
use europa_terrain::height::Constant;
use europa_terrain::mesh::{build_mesh_from_grid, sample_heights};
use europa_terrain::params::MAX_RES;
use europa_terrain::{build_europa_mesh, TerrainError, TerrainParams};

fn unit_x() -> Fx2 {
    Fx2 { x: Fx::one(), y: Fx::zero() }
}

fn flat_params() -> TerrainParams {
    TerrainParams::new(
        Fx::from_int(100),
        2,
        Fx::one(),
        fx_div(Fx::one(), Fx::from_int(100)),
        unit_x(),
        42,
    )
    .unwrap()
}

#[test]
fn constant_zero_field_builds_a_flat_mesh() {
    let field = Constant { value: Fx::zero() };
    let mesh = build_europa_mesh(flat_params(), &field).unwrap();
    assert_eq!(mesh.positions.len(), 9);
    assert_eq!(mesh.normals.len(), 9);
    assert_eq!(mesh.uvs.len(), 9);
    assert_eq!(mesh.indices.len(), 24);
    for p in mesh.positions.iter() {
        assert_eq!(p.y, Fx::zero());
    }
    for n in mesh.normals.iter() {
        assert_eq!(n.x, Fx::zero());
        assert_eq!(n.y, Fx::one());
        assert_eq!(n.z, Fx::zero());
    }
    // The grid spans [-50, 50]: the first vertex sits at (-50, 0, -50).
    assert_eq!(mesh.positions[0].x, Fx::from_int(-50));
    assert_eq!(mesh.positions[0].z, Fx::from_int(-50));
    assert_eq!(mesh.positions[8].x, Fx::from_int(50));
    assert_eq!(mesh.positions[8].z, Fx::from_int(50));
}

#[test]
fn index_buffer_matches_the_quad_split_exactly() {
    let field = Constant { value: Fx::zero() };
    let mesh = build_europa_mesh(flat_params(), &field).unwrap();
    let expected: Vec<u32> = vec![
        0, 3, 1, 1, 3, 4, 1, 4, 2, 2, 4, 5, 3, 6, 4, 4, 6, 7, 4, 7, 5, 5, 7, 8,
    ];
    assert_eq!(mesh.indices, expected);
}

#[test]
fn every_index_addresses_a_vertex_and_no_triangle_degenerates() {
    let field = Constant { value: Fx::from_int(3) };
    let params = TerrainParams::new(
        Fx::from_int(90),
        5,
        Fx::one(),
        fx_div(Fx::one(), Fx::from_int(30)),
        unit_x(),
        7,
    )
    .unwrap();
    let mesh = build_europa_mesh(params, &field).unwrap();
    assert_eq!(mesh.positions.len(), 36);
    assert_eq!(mesh.indices.len(), 150);
    for &ix in mesh.indices.iter() {
        assert!((ix as usize) < mesh.positions.len());
    }
    for tri in mesh.indices.chunks(3) {
        assert!(tri[0] != tri[1] && tri[1] != tri[2] && tri[2] != tri[0]);
    }
}

#[test]
fn uvs_cover_the_unit_square() {
    let field = Constant { value: Fx::zero() };
    let mesh = build_europa_mesh(flat_params(), &field).unwrap();
    assert_eq!(mesh.uvs[0].x, Fx::zero());
    assert_eq!(mesh.uvs[0].y, Fx::zero());
    assert_eq!(mesh.uvs[4].x.raw, 32768);
    assert_eq!(mesh.uvs[4].y.raw, 32768);
    assert_eq!(mesh.uvs[8].x, Fx::one());
    assert_eq!(mesh.uvs[8].y, Fx::one());
}

#[test]
fn a_non_finite_height_degrades_only_its_stencil_neighborhood() {
    // A 3 x 3 grid over a ramp h = x, with the center sample non-finite.
    let params = TerrainParams::new(
        Fx::from_int(2),
        2,
        Fx::one(),
        Fx::one(),
        unit_x(),
        0,
    )
    .unwrap();
    let mut heights: Vec<Fx> = Vec::new();
    for k in 0..9usize {
        heights.push(Fx::from_int((k % 3) as i64));
    }
    heights[4] = Fx::non_finite();
    let mesh = build_mesh_from_grid(params, &heights).unwrap();
    let up = (Fx::zero(), Fx::one(), Fx::zero());
    let norm = |k: usize| (mesh.normals[k].x, mesh.normals[k].y, mesh.normals[k].z);
    // The four vertices whose central difference reads the bad sample fall
    // back to the up vector, cleanly.
    assert_eq!(norm(1), up);
    assert_eq!(norm(3), up);
    assert_eq!(norm(5), up);
    assert_eq!(norm(7), up);
    // Every other vertex keeps the ordinary ramp normal, uncorrupted.
    let edge = (Fx::from_raw(-29308), Fx::from_raw(58617), Fx::zero());
    assert_eq!(norm(0), edge);
    assert_eq!(norm(2), edge);
    assert_eq!(norm(6), edge);
    assert_eq!(norm(8), edge);
    // The center vertex itself: its stencil skips the bad sample (central
    // differences read the neighbors), so it sees the full-step ramp slope.
    assert_eq!(norm(4), (Fx::from_raw(-46341), Fx::from_raw(46341), Fx::zero()));
    // The bad sample still lands in the position buffer as non-finite.
    assert!(!mesh.positions[4].y.fin);
    assert!(mesh.positions[3].y.fin);
}

#[test]
fn a_non_finite_corner_height_turns_its_own_normal_up() {
    // At the grid border the clamped stencil reads the vertex itself, so a
    // corner vertex with a non-finite height falls back to up in place.
    let params = TerrainParams::new(
        Fx::from_int(2),
        2,
        Fx::one(),
        Fx::one(),
        unit_x(),
        0,
    )
    .unwrap();
    let mut heights: Vec<Fx> = Vec::new();
    for k in 0..9usize {
        heights.push(Fx::from_int((k % 3) as i64));
    }
    heights[0] = Fx::non_finite();
    let mesh = build_mesh_from_grid(params, &heights).unwrap();
    assert_eq!(mesh.normals[0].y, Fx::one());
    assert_eq!(mesh.normals[0].x, Fx::zero());
    assert_eq!(mesh.normals[0].z, Fx::zero());
    // The opposite corner is untouched.
    assert!(mesh.normals[8].x.raw != 0);
}

#[test]
fn rebuilding_from_the_same_grid_is_bit_identical() {
    let params = flat_params();
    let field = Constant { value: Fx::from_int(2) };
    let m1 = build_europa_mesh(params, &field).unwrap();
    let m2 = build_europa_mesh(params, &field).unwrap();
    assert_eq!(m1.positions, m2.positions);
    assert_eq!(m1.normals, m2.normals);
    assert_eq!(m1.uvs, m2.uvs);
    assert_eq!(m1.indices, m2.indices);
}

#[test]
fn invalid_parameters_abort_before_building() {
    let field = Constant { value: Fx::zero() };
    let mut p = flat_params();
    p.res = 0;
    assert!(matches!(build_europa_mesh(p, &field), Err(TerrainError::InvalidParameter)));
    let mut p = flat_params();
    p.size = Fx::zero();
    assert!(matches!(build_europa_mesh(p, &field), Err(TerrainError::InvalidParameter)));
    let mut p = flat_params();
    p.size = Fx::non_finite();
    assert!(matches!(build_europa_mesh(p, &field), Err(TerrainError::InvalidParameter)));
    let mut p = flat_params();
    p.freq = Fx::from_int(-1);
    assert!(matches!(build_europa_mesh(p, &field), Err(TerrainError::InvalidParameter)));
    let mut p = flat_params();
    p.res = MAX_RES + 1;
    assert!(matches!(build_europa_mesh(p, &field), Err(TerrainError::InvalidParameter)));
}

#[test]
fn parameter_constructor_validates_the_same_way() {
    let ok = TerrainParams::new(
        Fx::from_int(10),
        4,
        Fx::one(),
        Fx::one(),
        unit_x(),
        9,
    );
    assert!(ok.is_ok());
    let p = ok.unwrap();
    assert_eq!(p.size, Fx::from_int(10));
    assert_eq!(p.res, 4);
    assert_eq!(p.seed, 9);
    assert!(matches!(
        TerrainParams::new(Fx::from_int(10), 0, Fx::one(), Fx::one(), unit_x(), 9),
        Err(TerrainError::InvalidParameter)
    ));
    assert!(matches!(
        TerrainParams::new(Fx::from_int(-10), 4, Fx::one(), Fx::one(), unit_x(), 9),
        Err(TerrainError::InvalidParameter)
    ));
    assert!(matches!(
        TerrainParams::new(Fx::from_int(10), 4, Fx::one(), Fx::zero(), unit_x(), 9),
        Err(TerrainError::InvalidParameter)
    ));
}

#[test]
fn grid_of_the_wrong_length_is_rejected() {
    let heights = vec![Fx::zero(); 8];
    assert!(matches!(
        build_mesh_from_grid(flat_params(), &heights),
        Err(TerrainError::InvalidParameter)
    ));
}

#[test]
fn the_smallest_grid_is_a_single_quad() {
    let field = Constant { value: Fx::one() };
    let params = TerrainParams::new(
        Fx::from_int(10),
        1,
        Fx::one(),
        Fx::one(),
        unit_x(),
        1,
    )
    .unwrap();
    let mesh = build_europa_mesh(params, &field).unwrap();
    assert_eq!(mesh.positions.len(), 4);
    assert_eq!(mesh.indices.len(), 6);
    assert_eq!(mesh.indices, vec![0, 2, 1, 1, 2, 3]);
    for p in mesh.positions.iter() {
        assert_eq!(p.y, Fx::one());
    }
}

#[test]
fn a_sub_resolution_world_degrades_to_up_normals() {
    // A world smaller than one fixed-point step per quad gives a zero
    // vertex spacing; the slope division is then undefined and every
    // normal takes the up fallback instead of garbage.
    let field = Constant { value: Fx::zero() };
    let params = TerrainParams::new(
        Fx::from_raw(1),
        2,
        Fx::one(),
        Fx::one(),
        unit_x(),
        1,
    )
    .unwrap();
    let mesh = build_europa_mesh(params, &field).unwrap();
    for n in mesh.normals.iter() {
        assert_eq!(n.x, Fx::zero());
        assert_eq!(n.y, Fx::one());
        assert_eq!(n.z, Fx::zero());
    }
}

#[test]
fn sampling_materializes_one_height_per_vertex() {
    let field = Constant { value: Fx::from_int(4) };
    let heights = sample_heights(&field, Fx::from_int(100), 2);
    assert_eq!(heights.len(), 9);
    for h in heights.iter() {
        assert_eq!(*h, Fx::from_int(4));
    }
}
