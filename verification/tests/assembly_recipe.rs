use europa_terrain::height::HeightSource;
use europa_terrain::{build_europa_mesh, Fx, TerrainParams, TerrainPlugin};

#[test]
fn demo_parameters_match_the_documented_values() {
    let p = TerrainParams::europa_demo();
    assert_eq!(p.size, Fx::from_int(3000));
    assert_eq!(p.res, 512);
    assert_eq!(p.amp, Fx::from_int(12));
    assert_eq!(p.freq.raw, 109);
    assert_eq!(p.line_dir.x.raw, 63579);
    assert_eq!(p.line_dir.y.raw, 15894);
    assert_eq!(p.seed, 1337);
}

#[test]
fn default_assembly_wires_the_documented_recipe() {
    let t = TerrainPlugin::europa_default();
    assert_eq!(t.params, TerrainParams::europa_demo());
    let bias = &t.height;
    assert_eq!(bias.bias.raw, -6553);
    let scale = &bias.s;
    assert_eq!(scale.scale, Fx::one());
    let warp = &scale.s;
    assert_eq!(warp.perlin.seed, 1337 ^ 0x9E37_79B9);
    assert_eq!(warp.warp_amp, Fx::from_int(40));
    assert_eq!(warp.warp_freq.raw, 65);
    assert_eq!(warp.octaves, 3);
    assert_eq!(warp.lacunarity.raw, 137625);
    assert_eq!(warp.gain.raw, 36044);
    let base = &warp.source.a;
    assert_eq!(base.perlin.seed, 1337);
    assert_eq!(base.freq.raw, 109);
    assert_eq!(base.octaves, 5);
    assert_eq!(base.lacunarity, Fx::from_int(2));
    assert_eq!(base.gain.raw, 32768);
    assert_eq!(base.amplitude, Fx::one());
    let oriented = &warp.source.b;
    assert_eq!(oriented.dir, t.params.line_dir);
    assert_eq!(oriented.main_scale, Fx::one());
    assert_eq!(oriented.ortho_scale.raw, 22937);
    let ridged = &oriented.source;
    assert_eq!(ridged.perlin.seed, 1337 ^ 0xB529_7A4D);
    assert_eq!(ridged.freq.raw, 272);
    assert_eq!(ridged.octaves, 4);
    assert_eq!(ridged.lacunarity.raw, 144179);
    assert_eq!(ridged.gain.raw, 49152);
    assert_eq!(ridged.amplitude, Fx::one());
    assert_eq!(ridged.z_anisotropy, Fx::from_int(2));
}

#[test]
fn assembled_field_is_deterministic_across_instances() {
    let t1 = TerrainPlugin::europa_default();
    let t2 = TerrainPlugin::europa_default();
    let mut v: i64 = -1200;
    while v <= 1200 {
        let x = Fx::from_int(v);
        let z = Fx::from_int(v / 2 - 333);
        let a = t1.height.height_at(x, z);
        let b = t2.height.height_at(x, z);
        assert_eq!(a, b);
        assert!(a.fin);
        v += 177;
    }
}

#[test]
fn assembled_field_produces_relief() {
    let t = TerrainPlugin::europa_default();
    let a = t.height.height_at(Fx::from_int(100), Fx::from_int(-250));
    let b = t.height.height_at(Fx::from_int(-700), Fx::from_int(401));
    assert!(a.fin && b.fin);
    assert!(a != b);
}

#[test]
fn repeated_builds_of_the_assembled_terrain_are_bit_identical() {
    let t = TerrainPlugin::europa_default();
    // The demo resolution is large; a coarser grid over the same field keeps
    // the test quick while exercising the full pipeline.
    let mut p = t.params;
    p.res = 8;
    let m1 = build_europa_mesh(p, &t.height).unwrap();
    let m2 = build_europa_mesh(p, &t.height).unwrap();
    assert_eq!(m1.positions, m2.positions);
    assert_eq!(m1.normals, m2.normals);
    assert_eq!(m1.uvs, m2.uvs);
    assert_eq!(m1.indices, m2.indices);
    assert_eq!(m1.positions.len(), 81);
    assert_eq!(m1.indices.len(), 384);
}

#[test]
fn bundling_keeps_parameters_and_field() {
    let demo = TerrainPlugin::europa_default();
    let t = TerrainPlugin::with(demo.params, demo.height);
    assert_eq!(t.params, TerrainParams::europa_demo());
}
