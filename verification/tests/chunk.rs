//! The orchestrator: chunk offsets, the full-frame run, the per-frame state
//! machine, and the end-to-end sphere extraction.

use nuage::chunk::{chunk_offset, frame_error_action, run_frame, DeviceReport, FrameAction, FrameMachine, Stage, CELLS_PER_CHUNK_DIM};
use nuage::density::{DensityField, GRID_SCALE};
use nuage::draw::IndirectDrawArgs;
use nuage::extract::{extract_chunk, MeshVertex};
use std::collections::{HashMap, HashSet};

#[test]
fn sphere_extraction_is_a_closed_bounded_mesh() {
    // grid resolution 4, density = distance from the grid centre minus the
    // radius (in thousandths of a cell), threshold 0: a sphere
    let dim = 4usize;
    let n = dim + 1;
    let mut samples = Vec::new();
    for z in 0..n {
        for y in 0..n {
            for x in 0..n {
                let dx = x as f64 - 2.0;
                let dy = y as f64 - 2.0;
                let dz = z as f64 - 2.0;
                let dist = (dx * dx + dy * dy + dz * dz).sqrt();
                samples.push(((dist - 1.5) * 1000.0).round() as i64);
            }
        }
    }
    let f = DensityField::from_samples(dim, 0, 0, 0, samples).unwrap();
    let mut out: Vec<MeshVertex> = Vec::new();
    let mut args = IndirectDrawArgs::new();
    extract_chunk(&f, 0, &mut out, &mut args);

    // the counter drives the draw call and matches the buffer exactly
    assert_eq!(args.vertex_count as usize, out.len());
    assert_eq!(out.len() % 3, 0);
    assert!(!out.is_empty());
    // capacity bound: at most 5 triangles (15 vertices) per cell
    assert!(out.len() <= dim * dim * dim * 15);
    // no vertex outside the chunk's bounding cube
    for v in &out {
        assert!(0 <= v.x && v.x <= dim as i64 * GRID_SCALE);
        assert!(0 <= v.y && v.y <= dim as i64 * GRID_SCALE);
        assert!(0 <= v.z && v.z <= dim as i64 * GRID_SCALE);
    }

    // closed surface: every triangle side is shared by exactly two triangles
    let tris: Vec<Vec<(i64, i64, i64)>> = out
        .chunks(3)
        .map(|t| t.iter().map(|v| (v.x, v.y, v.z)).collect())
        .collect();
    let mut sides: HashMap<((i64, i64, i64), (i64, i64, i64)), usize> = HashMap::new();
    let mut verts: HashSet<(i64, i64, i64)> = HashSet::new();
    for t in &tris {
        assert!(t[0] != t[1] && t[1] != t[2] && t[0] != t[2], "degenerate triangle");
        for k in 0..3 {
            let (u, w) = (t[k], t[(k + 1) % 3]);
            let key = if u <= w { (u, w) } else { (w, u) };
            *sides.entry(key).or_insert(0) += 1;
            verts.insert(u);
        }
    }
    for (side, count) in &sides {
        assert_eq!(*count, 2, "unpaired side {:?}", side);
    }
    // and it has the topology of a sphere
    let euler = verts.len() as i64 - sides.len() as i64 + tris.len() as i64;
    assert_eq!(euler, 2);
}

#[test]
fn chunk_offsets_form_the_working_volume() {
    let dim = CELLS_PER_CHUNK_DIM;
    let d = dim as i64;
    let expected = [
        (0, 0, 0),
        (d, 0, 0),
        (0, d, 0),
        (d, d, 0),
        (0, 0, d),
        (d, 0, d),
        (0, d, d),
        (d, d, d),
    ];
    for id in 0..8 {
        assert_eq!(chunk_offset(id, dim), expected[id]);
    }
}

#[test]
fn a_frame_covers_every_chunk_deterministically() {
    let outs = run_frame(3, 77, 0);
    assert_eq!(outs.len(), 8);
    for (id, o) in outs.iter().enumerate() {
        assert_eq!(o.args.vertex_count as usize, o.vertices.len());
        assert_eq!(o.args.instance_count, 1);
        let (ox, oy, oz) = chunk_offset(id, 3);
        assert_eq!(o.field.origin_x, ox);
        assert_eq!(o.field.origin_y, oy);
        assert_eq!(o.field.origin_z, oz);
    }
    let again = run_frame(3, 77, 0);
    for id in 0..8 {
        assert_eq!(outs[id].vertices, again[id].vertices);
        assert_eq!(outs[id].field.samples, again[id].field.samples);
    }
}

#[test]
fn frame_machine_follows_the_fixed_order() {
    let mut m = FrameMachine::new(2);
    assert_eq!(m.stage, Stage::Idle);
    let expected = [
        (Stage::Reset, 0),
        (Stage::Generate, 0),
        (Stage::Extract, 0),
        (Stage::Render, 0),
        (Stage::Reset, 1),
        (Stage::Generate, 1),
        (Stage::Extract, 1),
        (Stage::Render, 1),
        (Stage::Presented, 0),
        (Stage::Idle, 0),
    ];
    for (stage, chunk) in expected {
        m.advance();
        assert_eq!(m.stage, stage);
        assert_eq!(m.chunk, chunk);
    }
}

#[test]
fn frame_errors_follow_the_policy() {
    assert_eq!(frame_error_action(DeviceReport::SurfaceLost, false), FrameAction::Reconfigure);
    assert_eq!(frame_error_action(DeviceReport::SurfaceLost, true), FrameAction::Terminate);
    assert_eq!(frame_error_action(DeviceReport::OutOfMemory, false), FrameAction::Terminate);
    assert_eq!(frame_error_action(DeviceReport::OutOfMemory, true), FrameAction::Terminate);
    assert_eq!(frame_error_action(DeviceReport::Outdated, false), FrameAction::SkipFrame);
    assert_eq!(frame_error_action(DeviceReport::Timeout, false), FrameAction::SkipFrame);
}
