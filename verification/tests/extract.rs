//! The extractor: classification, interpolation, per-cell triangles, the
//! chunk walk, the counter, and isolation between runs.

use nuage::chunk::run_chunk;
use nuage::density::{DensityField, GRID_SCALE};
use nuage::draw::IndirectDrawArgs;
use nuage::extract::{cell_mask, extract_cell, extract_chunk, MeshVertex};
use nuage::tri_data::tri_table_entry;

const CORNER: [(i64, i64, i64); 8] = [
    (0, 0, 0),
    (1, 0, 0),
    (1, 1, 0),
    (0, 1, 0),
    (0, 0, 1),
    (1, 0, 1),
    (1, 1, 1),
    (0, 1, 1),
];

// each edge from its lower-coordinate corner to its higher-coordinate corner
const EDGE: [(usize, usize); 12] = [
    (0, 1),
    (1, 2),
    (3, 2),
    (0, 3),
    (4, 5),
    (5, 6),
    (7, 6),
    (4, 7),
    (0, 4),
    (1, 5),
    (2, 6),
    (3, 7),
];

/// A one-cell field whose corner densities are given in cube-corner order.
fn one_cell_field(d: [i64; 8]) -> DensityField {
    let mut samples = vec![0i64; 8];
    for i in 0..8 {
        let (x, y, z) = CORNER[i];
        samples[((z * 2 + y) * 2 + x) as usize] = d[i];
    }
    DensityField::from_samples(1, 0, 0, 0, samples).unwrap()
}

fn extract_one_cell(d: [i64; 8], iso: i64) -> (u8, Vec<MeshVertex>, IndirectDrawArgs) {
    let f = one_cell_field(d);
    let m = cell_mask(&f, iso, 0, 0, 0);
    let mut out: Vec<MeshVertex> = Vec::new();
    let mut args = IndirectDrawArgs::new();
    extract_cell(&f, iso, 0, 0, 0, &mut out, &mut args);
    (m, out, args)
}

fn expected_vertex_on_edge(d: &[i64; 8], iso: i64, e: usize) -> (i64, i64, i64) {
    let (a, b) = EDGE[e];
    let (da, db) = (d[a], d[b]);
    let (num, den) = if db > da { (iso - da, db - da) } else { (da - iso, da - db) };
    let t = (num * GRID_SCALE / den).clamp(0, GRID_SCALE);
    let pa = CORNER[a];
    let pb = CORNER[b];
    (
        pa.0 * GRID_SCALE + (pb.0 - pa.0) * t,
        pa.1 * GRID_SCALE + (pb.1 - pa.1) * t,
        pa.2 * GRID_SCALE + (pb.2 - pa.2) * t,
    )
}

#[test]
fn single_corner_above_threshold_emits_one_triangle() {
    // one corner above the threshold: one triangle, each vertex at the
    // midpoint of an edge incident to that corner
    let d = [-1, -1, -1, -1, -1, -1, -1, 1];
    let (m, out, args) = extract_one_cell(d, 0);
    assert_eq!(m, 127);
    assert_eq!(out.len(), 3);
    assert_eq!(args.vertex_count, 3);
    let half = GRID_SCALE / 2;
    // edges incident to corner 7: 6 (7-6), 7 (4-7) and 11 (3-7)
    let expected = [
        (0, half, GRID_SCALE),
        (0, GRID_SCALE, half),
        (half, GRID_SCALE, GRID_SCALE),
    ];
    let got: Vec<(i64, i64, i64)> = out.iter().map(|v| (v.x, v.y, v.z)).collect();
    for e in expected {
        assert!(got.contains(&e), "missing vertex {:?} in {:?}", e, got);
    }
}

#[test]
fn interpolation_matches_the_clamped_quotient() {
    // corner 0 inside, with distinct gradients along its three edges;
    // a corner density equal to the threshold interpolates to that corner
    let d = [-2, 0, 9, 2, 6, 9, 9, 9];
    let (m, out, _) = extract_one_cell(d, 0);
    assert_eq!(m, 1);
    // row for mask 1 lists edges 0, 8, 3
    let got: Vec<(i64, i64, i64)> = out.iter().map(|v| (v.x, v.y, v.z)).collect();
    assert_eq!(got[0], expected_vertex_on_edge(&d, 0, 0));
    assert_eq!(got[1], expected_vertex_on_edge(&d, 0, 8));
    assert_eq!(got[2], expected_vertex_on_edge(&d, 0, 3));
    assert_eq!(got[0], (GRID_SCALE, 0, 0));
    assert_eq!(got[1], (0, 0, GRID_SCALE / 4));
    assert_eq!(got[2], (0, GRID_SCALE / 2, 0));
}

#[test]
fn all_configurations_emit_on_their_crossed_edges() {
    // for every mask: the mask is reproduced from the signs, every vertex
    // lies at the midpoint of the row's edge, and the triangle sides either
    // pair up inside the cell or lie on a face of the cell
    for mask in 0..=255u16 {
        let mut d = [0i64; 8];
        for i in 0..8 {
            d[i] = if (mask >> i) & 1 == 1 { -1 } else { 1 };
        }
        let (m, out, args) = extract_one_cell(d, 0);
        assert_eq!(m as u16, mask);
        assert_eq!(args.vertex_count as usize, out.len());
        assert_eq!(out.len() % 3, 0);

        let mut expected_count = 0;
        let mut j = 0;
        while j < 16 && tri_table_entry(m, j) >= 0 {
            let e = tri_table_entry(m, j) as usize;
            let v = &out[j];
            let want = expected_vertex_on_edge(&d, 0, e);
            assert_eq!((v.x, v.y, v.z), want, "mask {} entry {}", mask, j);
            expected_count += 1;
            j += 1;
        }
        assert_eq!(out.len(), expected_count);

        // pairing of triangle sides
        let mut sides: std::collections::HashMap<((i64, i64, i64), (i64, i64, i64)), usize> =
            std::collections::HashMap::new();
        for t in out.chunks(3) {
            let p: Vec<(i64, i64, i64)> = t.iter().map(|v| (v.x, v.y, v.z)).collect();
            for k in 0..3 {
                let (u, w) = (p[k], p[(k + 1) % 3]);
                let key = if u <= w { (u, w) } else { (w, u) };
                *sides.entry(key).or_insert(0) += 1;
            }
        }
        for ((u, w), n) in sides {
            assert!(n <= 2, "mask {}: side used {} times", mask, n);
            if n == 1 {
                let on_face = (u.0 == w.0 && (u.0 == 0 || u.0 == GRID_SCALE))
                    || (u.1 == w.1 && (u.1 == 0 || u.1 == GRID_SCALE))
                    || (u.2 == w.2 && (u.2 == 0 || u.2 == GRID_SCALE));
                assert!(on_face, "mask {}: dangling side {:?} {:?}", mask, u, w);
            }
        }
    }
}

#[test]
fn counter_equals_three_times_the_triangles() {
    let f = DensityField::generate(6, 0, 0, 0, 0);
    let mut out: Vec<MeshVertex> = Vec::new();
    let mut args = IndirectDrawArgs::new();
    extract_chunk(&f, 0, &mut out, &mut args);

    // tally the triangles cell by cell, straight from the table rows
    let mut triangles = 0usize;
    for z in 0..6 {
        for y in 0..6 {
            for x in 0..6 {
                let m = cell_mask(&f, 0, x, y, z);
                let mut j = 0;
                while j < 16 && tri_table_entry(m, j) >= 0 {
                    j += 1;
                }
                triangles += j / 3;
            }
        }
    }
    assert!(triangles > 0);
    assert_eq!(args.vertex_count as usize, 3 * triangles);
    assert_eq!(out.len(), 3 * triangles);
    assert_eq!(args.instance_count, 1);
    assert_eq!(args.first_vertex, 0);
    assert_eq!(args.first_instance, 0);
}

#[test]
fn reserve_hands_out_the_pre_increment_value() {
    let mut args = IndirectDrawArgs::new();
    assert_eq!(args.vertex_count, 0);
    assert_eq!(args.instance_count, 1);
    let b0 = args.reserve(3);
    let b1 = args.reserve(3);
    assert_eq!(b0, 0);
    assert_eq!(b1, 3);
    assert_eq!(args.vertex_count, 6);
    args.reset();
    assert_eq!(args.vertex_count, 0);
    assert_eq!(args.instance_count, 1);
    assert_eq!(args.first_vertex, 0);
    assert_eq!(args.first_instance, 0);
}

#[test]
fn reset_isolates_chunks_from_one_another() {
    // run one chunk, then reuse the same buffers for another: the second
    // run's output is identical to the second chunk run from fresh buffers
    let mut out: Vec<MeshVertex> = Vec::new();
    let mut args = IndirectDrawArgs::new();
    run_chunk(0, 5, 111, 0, &mut out, &mut args);
    assert!(!out.is_empty());
    run_chunk(1, 5, 222, 0, &mut out, &mut args);

    let mut fresh_out: Vec<MeshVertex> = Vec::new();
    let mut fresh_args = IndirectDrawArgs::new();
    run_chunk(1, 5, 222, 0, &mut fresh_out, &mut fresh_args);

    assert_eq!(out, fresh_out);
    assert_eq!(args.vertex_count, fresh_args.vertex_count);
    assert_eq!(out.len(), args.vertex_count as usize);
}
