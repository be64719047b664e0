//! The density field generator: determinism, the closed-form values, the
//! boundary behaviour between chunks, and input validation.

use nuage::density::{density_value, DensityField, DENSITY_LIMIT, MAX_DIM};

fn tri_wave(v: i64, p: i64) -> i64 {
    let r = v.rem_euclid(p);
    if 2 * r <= p {
        r
    } else {
        p - r
    }
}

fn expected_density(ox: i64, oy: i64, oz: i64, t: i64, x: i64, y: i64, z: i64) -> i64 {
    tri_wave(5 * (ox + x) + t, 29) + tri_wave(3 * (oy + y) + 2 * t, 23) + tri_wave(
        7 * (oz + z) + t,
        37,
    ) - 22
}

#[test]
fn generator_is_idempotent() {
    let f1 = DensityField::generate(4, 3, -2, 5, 1234);
    let f2 = DensityField::generate(4, 3, -2, 5, 1234);
    assert_eq!(f1.samples, f2.samples);
    assert_eq!(f1.samples.len(), 125);
}

#[test]
fn generator_matches_the_closed_form() {
    let f = DensityField::generate(3, 7, -9, 2, 55);
    for z in 0..=3usize {
        for y in 0..=3usize {
            for x in 0..=3usize {
                let d = f.sample(x, y, z);
                assert_eq!(d, expected_density(7, -9, 2, 55, x as i64, y as i64, z as i64));
                assert_eq!(d, density_value(7, -9, 2, 55, x as i64, y as i64, z as i64));
                assert!((-22..=21).contains(&d));
            }
        }
    }
}

#[test]
fn shared_boundary_corners_agree() {
    // two chunks side by side along x recompute identical densities on the
    // lattice plane they share
    let a = DensityField::generate(4, 0, 0, 0, 900);
    let b = DensityField::generate(4, 4, 0, 0, 900);
    for z in 0..=4usize {
        for y in 0..=4usize {
            assert_eq!(a.sample(4, y, z), b.sample(0, y, z));
        }
    }
}

#[test]
fn from_samples_validates_the_bounds() {
    let good = DensityField::from_samples(1, 0, 0, 0, vec![0; 8]);
    assert!(good.is_some());
    assert_eq!(good.unwrap().samples, vec![0; 8]);

    // wrong sample count for the resolution
    assert!(DensityField::from_samples(1, 0, 0, 0, vec![0; 9]).is_none());
    // resolution out of range
    assert!(DensityField::from_samples(0, 0, 0, 0, vec![]).is_none());
    assert!(DensityField::from_samples(MAX_DIM + 1, 0, 0, 0, vec![0; 8]).is_none());
    // a sample out of range
    let mut s = vec![0i64; 8];
    s[3] = DENSITY_LIMIT + 1;
    assert!(DensityField::from_samples(1, 0, 0, 0, s).is_none());
    // an origin out of range
    assert!(DensityField::from_samples(1, i64::MAX, 0, 0, vec![0; 8]).is_none());
}
