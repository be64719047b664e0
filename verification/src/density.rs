//! The density field: one scalar sample per corner of a chunk's voxel
//! lattice, and the procedural generator that fills it.
//!
//! A chunk with resolution `dim` has `dim x dim x dim` cells and
//! `(dim+1)^3` corner samples, stored flat in x-fastest order. Samples are
//! fixed-point integers so that generation is exactly reproducible: the
//! generator's value is a pure function of the absolute corner position and
//! the animation time, evaluated independently per corner.

use crate::indexing::{
    flat_index, lemma_flat_index_bounds, lemma_flat_index_surjective, lemma_flat_index_unique,
};
use vstd::prelude::*;

verus! {

/// Fixed-point units per cell edge of the voxel grid.
pub const GRID_SCALE: i64 = 65536;

/// Largest supported per-chunk resolution (cells per axis).
pub const MAX_DIM: usize = 64;

/// Bound on the absolute value of a chunk origin coordinate, in cells.
pub const ORIGIN_LIMIT: i64 = 1048576;

/// Bound on the absolute value of a density sample and of the iso threshold.
pub const DENSITY_LIMIT: i64 = 1073741824;

/// Bound on the absolute value of the animation time parameter.
pub const TIME_LIMIT: i64 = 1099511627776;

/// Flat position of corner `(x, y, z)` in a field of resolution `dim`.
pub open spec fn sample_index(dim: int, x: int, y: int, z: int) -> int {
    flat_index(dim + 1, x, y, z)
}

/// Euclidean remainder, executable: the result is in `[0, p)`.
pub fn euclid_mod(v: i64, p: i64) -> (r: i64)
    requires
        1 <= p,
    ensures
        r as int == (v as int) % (p as int),
        0 <= r < p,
{
    v.checked_rem_euclid(p).unwrap()
}

/// Distance of `v` from the nearest multiple of the period `p`; a triangle
/// wave with values in `[0, p/2]`.
pub open spec fn tri_wave(v: int, p: int) -> int
    recommends
        1 <= p,
{
    let r = v % p;
    if 2 * r <= p {
        r
    } else {
        p - r
    }
}

/// The procedural density: a sum of three triangle waves of the absolute
/// corner position, drifting with time. Deterministic in (origin, time,
/// corner), and evaluated independently per corner.
pub open spec fn density_at(ox: int, oy: int, oz: int, t: int, x: int, y: int, z: int) -> int {
    tri_wave(5 * (ox + x) + t, 29) + tri_wave(3 * (oy + y) + 2 * t, 23) + tri_wave(
        7 * (oz + z) + t,
        37,
    ) - 22
}

/// The generator's values stay well inside the sample bound.
pub proof fn lemma_density_bounded(ox: int, oy: int, oz: int, t: int, x: int, y: int, z: int)
    ensures
        -22 <= density_at(ox, oy, oz, t, x, y, z) <= 21,
{
}

/// Shared lattice corners get identical densities in every chunk that covers
/// them: the value depends only on the absolute position and the time.
pub proof fn lemma_boundary_consistency(
    ox1: int, oy1: int, oz1: int, x1: int, y1: int, z1: int,
    ox2: int, oy2: int, oz2: int, x2: int, y2: int, z2: int,
    t: int,
)
    requires
        ox1 + x1 == ox2 + x2,
        oy1 + y1 == oy2 + y2,
        oz1 + z1 == oz2 + z2,
    ensures
        density_at(ox1, oy1, oz1, t, x1, y1, z1) == density_at(ox2, oy2, oz2, t, x2, y2, z2),
{
}

/// Executable evaluation of the density function.
pub fn density_value(ox: i64, oy: i64, oz: i64, t: i64, x: i64, y: i64, z: i64) -> (d: i64)
    requires
        -ORIGIN_LIMIT <= ox <= ORIGIN_LIMIT,
        -ORIGIN_LIMIT <= oy <= ORIGIN_LIMIT,
        -ORIGIN_LIMIT <= oz <= ORIGIN_LIMIT,
        -TIME_LIMIT <= t <= TIME_LIMIT,
        0 <= x <= MAX_DIM,
        0 <= y <= MAX_DIM,
        0 <= z <= MAX_DIM,
    ensures
        d as int == density_at(ox as int, oy as int, oz as int, t as int, x as int, y as int, z as int),
        -22 <= d <= 21,
{
    let rx = euclid_mod(5 * (ox + x) + t, 29);
    let wx = if 2 * rx <= 29 {
        rx
    } else {
        29 - rx
    };
    let ry = euclid_mod(3 * (oy + y) + 2 * t, 23);
    let wy = if 2 * ry <= 23 {
        ry
    } else {
        23 - ry
    };
    let rz = euclid_mod(7 * (oz + z) + t, 37);
    let wz = if 2 * rz <= 37 {
        rz
    } else {
        37 - rz
    };
    wx + wy + wz - 22
}

/// A chunk's density buffer: resolution, origin (in cells), and the
/// `(dim+1)^3` corner samples in x-fastest order.
pub struct DensityField {
    pub dim: usize,
    pub origin_x: i64,
    pub origin_y: i64,
    pub origin_z: i64,
    pub samples: Vec<i64>,
}

impl DensityField {
    /// Well-formedness: bounded resolution, origin and samples, and a fully
    /// populated lattice.
    pub open spec fn wf(self) -> bool {
        &&& 1 <= self.dim <= MAX_DIM
        &&& -ORIGIN_LIMIT <= self.origin_x <= ORIGIN_LIMIT
        &&& -ORIGIN_LIMIT <= self.origin_y <= ORIGIN_LIMIT
        &&& -ORIGIN_LIMIT <= self.origin_z <= ORIGIN_LIMIT
        &&& self.samples.len() == (self.dim + 1) * (self.dim + 1) * (self.dim + 1)
        &&& forall|k: int|
            0 <= k < self.samples.len() ==> -DENSITY_LIMIT <= #[trigger] self.samples[k]
                <= DENSITY_LIMIT
    }

    /// The sample stored for corner `(x, y, z)`.
    pub open spec fn sample_at(self, x: int, y: int, z: int) -> int {
        self.samples[sample_index(self.dim as int, x, y, z)] as int
    }

    /// This field holds exactly what the generator produces for
    /// `(origin, time)`: the defining property of a generated field.
    pub open spec fn is_generated(self, t: int) -> bool {
        forall|x: int, y: int, z: int|
            0 <= x <= self.dim && 0 <= y <= self.dim && 0 <= z <= self.dim
                ==> #[trigger] self.sample_at(x, y, z) == density_at(
                self.origin_x as int,
                self.origin_y as int,
                self.origin_z as int,
                t,
                x,
                y,
                z,
            )
    }

    /// Read the sample of corner `(x, y, z)`.
    pub fn sample(&self, x: usize, y: usize, z: usize) -> (d: i64)
        requires
            self.wf(),
            x <= self.dim,
            y <= self.dim,
            z <= self.dim,
        ensures
            d as int == self.sample_at(x as int, y as int, z as int),
            -DENSITY_LIMIT <= d <= DENSITY_LIMIT,
    {
        let n = self.dim + 1;
        proof {
            lemma_sample_index_bounds(self.dim as int, x as int, y as int, z as int);
            assert(z * n <= 64 * 65 && (z * n + y) * n <= 65 * 65 * 65 && (z * n + y) * n + x < 65
                * 65 * 65) by (nonlinear_arith)
                requires
                    x < n,
                    y < n,
                    z < n,
                    n <= 65,
            ;
        }
        self.samples[(z * n + y) * n + x]
    }

    /// Build a field from caller-supplied samples, validating every bound;
    /// returns the field exactly when the inputs satisfy the bounds.
    pub fn from_samples(
        dim: usize,
        origin_x: i64,
        origin_y: i64,
        origin_z: i64,
        samples: Vec<i64>,
    ) -> (r: Option<DensityField>)
        ensures
            match r {
                Some(f) => {
                    &&& f.wf()
                    &&& f.dim == dim
                    &&& f.origin_x == origin_x
                    &&& f.origin_y == origin_y
                    &&& f.origin_z == origin_z
                    &&& f.samples == samples
                },
                None => !(DensityField {
                    dim,
                    origin_x,
                    origin_y,
                    origin_z,
                    samples,
                }).wf(),
            },
    {
        if dim < 1 || dim > MAX_DIM {
            return None;
        }
        if origin_x < -ORIGIN_LIMIT || origin_x > ORIGIN_LIMIT || origin_y < -ORIGIN_LIMIT
            || origin_y > ORIGIN_LIMIT || origin_z < -ORIGIN_LIMIT || origin_z > ORIGIN_LIMIT {
            return None;
        }
        let n = dim + 1;
        proof {
            assert(n * n <= 65 * 65 && n * n * n <= 65 * 65 * 65) by (nonlinear_arith)
                requires
                    0 < n <= 65,
            ;
        }
        if samples.len() != n * n * n {
            return None;
        }
        let mut k: usize = 0;
        while k < samples.len()
            invariant
                k <= samples.len(),
                forall|i: int| 0 <= i < k ==> -DENSITY_LIMIT <= #[trigger] samples[i] <= DENSITY_LIMIT,
            decreases samples.len() - k,
        {
            let s = samples[k];
            if s < -DENSITY_LIMIT || s > DENSITY_LIMIT {
                return None;
            }
            k = k + 1;
        }
        Some(DensityField { dim, origin_x, origin_y, origin_z, samples })
    }

    /// Run the generator: overwrite (here: produce) the chunk's density
    /// buffer with the procedural value of every lattice corner for the given
    /// origin and time.
    pub fn generate(dim: usize, origin_x: i64, origin_y: i64, origin_z: i64, t: i64) -> (f:
        DensityField)
        requires
            1 <= dim <= MAX_DIM,
            -ORIGIN_LIMIT <= origin_x <= ORIGIN_LIMIT,
            -ORIGIN_LIMIT <= origin_y <= ORIGIN_LIMIT,
            -ORIGIN_LIMIT <= origin_z <= ORIGIN_LIMIT,
            -TIME_LIMIT <= t <= TIME_LIMIT,
        ensures
            f.wf(),
            f.dim == dim,
            f.origin_x == origin_x,
            f.origin_y == origin_y,
            f.origin_z == origin_z,
            f.is_generated(t as int),
    {
        let n = dim + 1;
        let mut samples: Vec<i64> = Vec::new();
        let mut z: usize = 0;
        while z < n
            invariant
                1 <= dim <= MAX_DIM,
                -ORIGIN_LIMIT <= origin_x <= ORIGIN_LIMIT,
                -ORIGIN_LIMIT <= origin_y <= ORIGIN_LIMIT,
                -ORIGIN_LIMIT <= origin_z <= ORIGIN_LIMIT,
                -TIME_LIMIT <= t <= TIME_LIMIT,
                n == dim + 1,
                z <= n,
                samples.len() == z * n * n,
                forall|xx: int, yy: int, zz: int|
                    0 <= xx <= dim && 0 <= yy <= dim && 0 <= zz <= dim && sample_index(
                        dim as int,
                        xx,
                        yy,
                        zz,
                    ) < samples.len() ==> #[trigger] samples[sample_index(dim as int, xx, yy, zz)]
                        as int == density_at(
                        origin_x as int,
                        origin_y as int,
                        origin_z as int,
                        t as int,
                        xx,
                        yy,
                        zz,
                    ),
                forall|k: int|
                    0 <= k < samples.len() ==> -DENSITY_LIMIT <= #[trigger] samples[k]
                        <= DENSITY_LIMIT,
            decreases n - z,
        {
            let mut y: usize = 0;
            while y < n
                invariant
                    1 <= dim <= MAX_DIM,
                    -ORIGIN_LIMIT <= origin_x <= ORIGIN_LIMIT,
                    -ORIGIN_LIMIT <= origin_y <= ORIGIN_LIMIT,
                    -ORIGIN_LIMIT <= origin_z <= ORIGIN_LIMIT,
                    -TIME_LIMIT <= t <= TIME_LIMIT,
                    n == dim + 1,
                    z < n,
                    y <= n,
                    samples.len() == (z * n + y) * n,
                    forall|xx: int, yy: int, zz: int|
                        0 <= xx <= dim && 0 <= yy <= dim && 0 <= zz <= dim && sample_index(
                            dim as int,
                            xx,
                            yy,
                            zz,
                        ) < samples.len() ==> #[trigger] samples[sample_index(dim as int, xx, yy, zz)]
                            as int == density_at(
                            origin_x as int,
                            origin_y as int,
                            origin_z as int,
                            t as int,
                            xx,
                            yy,
                            zz,
                        ),
                    forall|k: int|
                        0 <= k < samples.len() ==> -DENSITY_LIMIT <= #[trigger] samples[k]
                            <= DENSITY_LIMIT,
                decreases n - y,
            {
                let mut x: usize = 0;
                while x < n
                    invariant
                        1 <= dim <= MAX_DIM,
                        -ORIGIN_LIMIT <= origin_x <= ORIGIN_LIMIT,
                        -ORIGIN_LIMIT <= origin_y <= ORIGIN_LIMIT,
                        -ORIGIN_LIMIT <= origin_z <= ORIGIN_LIMIT,
                        -TIME_LIMIT <= t <= TIME_LIMIT,
                        n == dim + 1,
                        z < n,
                        y < n,
                        x <= n,
                        samples.len() == (z * n + y) * n + x,
                        forall|xx: int, yy: int, zz: int|
                            0 <= xx <= dim && 0 <= yy <= dim && 0 <= zz <= dim && sample_index(
                                dim as int,
                                xx,
                                yy,
                                zz,
                            ) < samples.len() ==> #[trigger] samples[sample_index(
                                dim as int,
                                xx,
                                yy,
                                zz,
                            )] as int == density_at(
                                origin_x as int,
                                origin_y as int,
                                origin_z as int,
                                t as int,
                                xx,
                                yy,
                                zz,
                            ),
                        forall|k: int|
                            0 <= k < samples.len() ==> -DENSITY_LIMIT <= #[trigger] samples[k]
                                <= DENSITY_LIMIT,
                    decreases n - x,
                {
                    let d = density_value(
                        origin_x,
                        origin_y,
                        origin_z,
                        t,
                        x as i64,
                        y as i64,
                        z as i64,
                    );
                    samples.push(d);
                    proof {
                        lemma_sample_index_unique(dim as int, x as int, y as int, z as int);
                    }
                    x = x + 1;
                }
                proof {
                    assert((z * n + (y + 1)) * n == (z * n + y) * n + n) by (nonlinear_arith);
                }
                y = y + 1;
            }
            proof {
                assert(((z + 1) * n) * n == (z * n + n) * n) by (nonlinear_arith);
                assert((z + 1) * n * n == ((z + 1) * n) * n);
            }
            z = z + 1;
        }
        let f = DensityField { dim, origin_x, origin_y, origin_z, samples };
        proof {
            assert forall|x: int, y: int, z: int|
                0 <= x <= dim && 0 <= y <= dim && 0 <= z <= dim implies #[trigger] f.sample_at(
                x,
                y,
                z,
            ) == density_at(
                origin_x as int,
                origin_y as int,
                origin_z as int,
                t as int,
                x,
                y,
                z,
            ) by {
                lemma_sample_index_bounds(dim as int, x, y, z);
            }
        }
        f
    }
}

/// A lattice corner's flat position lies within the sample array.
pub proof fn lemma_sample_index_bounds(dim: int, x: int, y: int, z: int)
    requires
        1 <= dim,
        0 <= x <= dim,
        0 <= y <= dim,
        0 <= z <= dim,
    ensures
        0 <= sample_index(dim, x, y, z) < (dim + 1) * (dim + 1) * (dim + 1),
{
    lemma_flat_index_bounds(dim + 1, x, y, z);
}

/// Flat positions determine their corners: `sample_index` is injective on
/// the lattice, recovered by division and remainder.
pub proof fn lemma_sample_index_unique(dim: int, x: int, y: int, z: int)
    requires
        1 <= dim,
        0 <= x <= dim,
        0 <= y <= dim,
        0 <= z <= dim,
    ensures
        forall|x2: int, y2: int, z2: int|
            0 <= x2 <= dim && 0 <= y2 <= dim && 0 <= z2 <= dim && #[trigger] sample_index(
                dim,
                x2,
                y2,
                z2,
            ) == sample_index(dim, x, y, z) ==> x2 == x && y2 == y && z2 == z,
{
    lemma_flat_index_unique(dim + 1, x, y, z);
}

/// Re-running the generator with identical (origin, time) inputs yields a
/// bit-identical density field: every sample of the two fields agrees.
pub proof fn lemma_generator_deterministic(f1: DensityField, f2: DensityField, t: int)
    requires
        f1.wf(),
        f2.wf(),
        f1.dim == f2.dim,
        f1.origin_x == f2.origin_x,
        f1.origin_y == f2.origin_y,
        f1.origin_z == f2.origin_z,
        f1.is_generated(t),
        f2.is_generated(t),
    ensures
        f1.samples@ == f2.samples@,
{
    let dim = f1.dim as int;
    let n = dim + 1;
    assert forall|k: int| 0 <= k < f1.samples.len() implies f1.samples[k] == f2.samples[k] by {
        lemma_flat_index_surjective(n, k);
        let x = k % n;
        let y = (k / n) % n;
        let z = k / n / n;
        assert(f1.sample_at(x, y, z) == f2.sample_at(x, y, z));
    }
    assert(f1.samples@ =~= f2.samples@);
}

} // verus!
