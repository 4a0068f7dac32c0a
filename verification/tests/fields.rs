use europa_terrain::comb::{Add2, Bias, Scale};
use europa_terrain::fx::{fx_abs, fx_clamp, fx_div, fx_mul, fx_neg, fx_sub, Fx, FX_ONE};
use europa_terrain::height::{Constant, HeightSource};
use europa_terrain::noise::{Perlin, PerlinFbm, PerlinRidged};
use europa_terrain::warp::{Oriented, Warp2D};
use europa_terrain::{Fx2, TerrainError};

fn sample_points() -> Vec<(Fx, Fx)> {
    let mut pts = Vec::new();
    let mut v: i64 = -1500;
    while v <= 1500 {
        pts.push((Fx::from_int(v), Fx::from_int(-v / 3 + 11)));
        pts.push((Fx::from_raw(v * 7919 + 13), Fx::from_raw(-v * 104729 + 5)));
        v += 250;
    }
    pts
}

fn fbm(seed: u32, amplitude: Fx) -> PerlinFbm {
    PerlinFbm {
        perlin: Perlin::new(seed),
        freq: fx_div(Fx::one(), Fx::from_int(50)),
        octaves: 5,
        lacunarity: Fx::from_int(2),
        gain: Fx::from_raw(32768),
        amplitude,
    }
}

fn ridged(seed: u32, amplitude: Fx) -> PerlinRidged {
    PerlinRidged {
        perlin: Perlin::new(seed),
        freq: fx_div(Fx::one(), Fx::from_int(40)),
        octaves: 4,
        lacunarity: fx_div(Fx::from_int(11), Fx::from_int(5)),
        gain: Fx::from_raw(49152),
        amplitude,
        z_anisotropy: Fx::from_int(2),
    }
}

#[test]
fn noise_is_deterministic_and_bounded() {
    let p = Perlin::new(12345);
    for &(x, z) in sample_points().iter() {
        let a = p.get(x, z);
        let b = p.get(x, z);
        assert_eq!(a, b);
        assert!(a.fin);
        assert!(-FX_ONE <= a.raw && a.raw <= FX_ONE);
    }
}

#[test]
fn noise_of_non_finite_point_is_zero() {
    let p = Perlin::new(7);
    let r = p.get(Fx::non_finite(), Fx::from_int(3));
    assert_eq!(r, Fx::zero());
}

#[test]
fn noise_vanishes_on_the_unit_lattice() {
    let p = Perlin::new(987654321);
    let mut a: i64 = -25;
    while a <= 25 {
        let r = p.get(Fx::from_int(a), Fx::from_int(3 * a + 7));
        assert_eq!(r, Fx::zero());
        a += 1;
    }
}

#[test]
fn single_octave_fbm_is_the_scaled_base_noise() {
    // With one octave, weight one and amplitude one, the accumulation
    // collapses to a single noise sample at the base frequency.
    let mut f = fbm(55, Fx::one());
    f.octaves = 1;
    for &(x, z) in sample_points().iter() {
        let direct = f.perlin.get(fx_mul(x, f.freq), fx_mul(z, f.freq));
        assert_eq!(f.height_at(x, z), direct);
    }
}

#[test]
fn single_octave_ridged_folds_the_base_noise() {
    let mut f = ridged(66, Fx::one());
    f.octaves = 1;
    for &(x, z) in sample_points().iter() {
        let n = f.perlin.get(fx_mul(x, f.freq), fx_mul(z, f.freq));
        let v = fx_sub(Fx::one(), fx_abs(n));
        let expected = fx_clamp(fx_mul(v, v), 0, FX_ONE);
        assert_eq!(f.height_at(x, z), expected);
    }
}

#[test]
fn distinct_seeds_give_distinct_fields() {
    let a = Perlin::new(1);
    let b = Perlin::new(2);
    let mut differs = false;
    for &(x, z) in sample_points().iter() {
        if a.get(x, z) != b.get(x, z) {
            differs = true;
        }
    }
    assert!(differs);
}

#[test]
fn fbm_stays_within_amplitude() {
    for seed in [1u32, 42, 1337, 99999] {
        let f = fbm(seed, Fx::from_int(3));
        for &(x, z) in sample_points().iter() {
            let h = f.height_at(x, z);
            assert!(h.fin);
            assert!(-3 * FX_ONE <= h.raw && h.raw <= 3 * FX_ONE);
        }
    }
}

#[test]
fn ridged_is_one_sided() {
    for seed in [3u32, 42, 31337] {
        let f = ridged(seed, Fx::from_int(2));
        for &(x, z) in sample_points().iter() {
            let h = f.height_at(x, z);
            assert!(h.fin);
            assert!(0 <= h.raw && h.raw <= 2 * FX_ONE);
        }
    }
}

#[test]
fn fbm_zero_octaves_yields_non_finite() {
    let mut f = fbm(9, Fx::one());
    f.octaves = 0;
    let h = f.height_at(Fx::from_int(5), Fx::from_int(6));
    assert!(!h.fin);
}

#[test]
fn validate_rejects_zero_octaves() {
    let mut f = fbm(9, Fx::one());
    assert!(matches!(f.validate(), Ok(())));
    f.octaves = 0;
    assert!(matches!(f.validate(), Err(TerrainError::InvalidParameter)));
    let mut r = ridged(9, Fx::one());
    assert!(matches!(r.validate(), Ok(())));
    r.octaves = 0;
    assert!(matches!(r.validate(), Err(TerrainError::InvalidParameter)));
}

#[test]
fn combinators_compute_pointwise_arithmetic() {
    let f = Add2 { a: Constant { value: Fx::from_int(3) }, b: Constant { value: Fx::from_int(4) } };
    assert_eq!(f.height_at(Fx::zero(), Fx::zero()), Fx::from_int(7));
    let s = Scale { s: Constant { value: Fx::from_int(3) }, scale: Fx::from_int(-2) };
    assert_eq!(s.height_at(Fx::zero(), Fx::zero()), Fx::from_int(-6));
    let b = Bias { s: Constant { value: Fx::from_int(3) }, bias: Fx::from_int(10) };
    assert_eq!(b.height_at(Fx::zero(), Fx::zero()), Fx::from_int(13));
}

#[test]
fn zero_amplitude_warp_is_identity() {
    let source = fbm(77, Fx::from_int(2));
    let reference = fbm(77, Fx::from_int(2));
    let w = Warp2D {
        source,
        perlin: Perlin::new(5),
        warp_amp: Fx::zero(),
        warp_freq: fx_div(Fx::one(), Fx::from_int(30)),
        octaves: 3,
        lacunarity: Fx::from_int(2),
        gain: Fx::from_raw(32768),
    };
    for &(x, z) in sample_points().iter() {
        assert_eq!(w.height_at(x, z), reference.height_at(x, z));
    }
}

#[test]
fn nonzero_warp_actually_displaces() {
    let source = fbm(77, Fx::from_int(2));
    let reference = fbm(77, Fx::from_int(2));
    let w = Warp2D {
        source,
        perlin: Perlin::new(5),
        warp_amp: Fx::from_int(40),
        warp_freq: fx_div(Fx::one(), Fx::from_int(30)),
        octaves: 3,
        lacunarity: Fx::from_int(2),
        gain: Fx::from_raw(32768),
    };
    let mut differs = false;
    for &(x, z) in sample_points().iter() {
        if w.height_at(x, z) != reference.height_at(x, z) {
            differs = true;
        }
    }
    assert!(differs);
}

#[test]
fn axis_aligned_orientation_swaps_to_negated_z() {
    let through = Oriented {
        source: ridged(21, Fx::one()),
        dir: Fx2 { x: Fx::one(), y: Fx::zero() },
        main_scale: Fx::one(),
        ortho_scale: Fx::one(),
    };
    let direct = ridged(21, Fx::one());
    for &(x, z) in sample_points().iter() {
        assert_eq!(through.height_at(x, z), direct.height_at(x, fx_neg(z)));
    }
}

#[test]
fn oriented_ortho_scale_squeezes_the_cross_axis() {
    let through = Oriented {
        source: ridged(21, Fx::one()),
        dir: Fx2 { x: Fx::one(), y: Fx::zero() },
        main_scale: Fx::one(),
        ortho_scale: Fx::from_raw(32768),
    };
    let direct = ridged(21, Fx::one());
    let x = Fx::from_int(12);
    let z = Fx::from_int(-34);
    // v = -z * 0.5: reading through the wrapper halves the cross coordinate.
    let expected = direct.height_at(x, fx_neg(Fx::from_int(-17)));
    assert_eq!(through.height_at(x, z), expected);
}
