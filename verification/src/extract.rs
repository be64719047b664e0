//! The iso-surface extractor: marching cubes over a populated density field.
//!
//! Per cell it classifies the 8 corners against the iso threshold into a
//! configuration mask, interpolates a crossing vertex on every edge the
//! triangulation row references, and appends whole triangles to the shared
//! output buffer, reserving each triangle's three slots through the draw
//! coordinator's counter. Cells are independent of one another; the chunk
//! walks them in x-fastest order.

use crate::cube::{
    corner_dx, corner_dy, corner_dz, corner_offset, edge_corner_a, edge_corner_b, edge_corners,
    lemma_edge_shape,
};
use crate::density::{DensityField, DENSITY_LIMIT, GRID_SCALE, MAX_DIM, ORIGIN_LIMIT};
use crate::draw::IndirectDrawArgs;
use crate::tables::{corner_in, edge_crossed, entry_ok, lemma_corner_bits, lemma_row_ok, row_len, row_ok};
use crate::tri_data::{tri_entry, tri_table_entry};
use vstd::prelude::*;

verus! {

/// One output vertex: a position in fixed-point world coordinates
/// (`GRID_SCALE` units per cell edge), produced by linear interpolation along
/// a crossed cell edge.
#[derive(Clone, Copy, Debug, PartialEq, Eq, Structural)]
pub struct MeshVertex {
    pub x: i64,
    pub y: i64,
    pub z: i64,
}

/// Density sampled at corner `i` of cell `(cx, cy, cz)`.
pub open spec fn corner_density(f: DensityField, cx: int, cy: int, cz: int, i: int) -> int {
    f.sample_at(cx + corner_dx(i), cy + corner_dy(i), cz + corner_dz(i))
}

/// Corner `i` of the cell is inside the surface: density strictly below the
/// iso threshold.
pub open spec fn corner_inside(
    f: DensityField,
    iso: int,
    cx: int,
    cy: int,
    cz: int,
    i: int,
) -> bool {
    corner_density(f, cx, cy, cz, i) < iso
}

/// The cell's 8-bit configuration mask: bit `i` set iff corner `i` is inside.
pub open spec fn cell_config(f: DensityField, iso: int, cx: int, cy: int, cz: int) -> int {
    (if corner_inside(f, iso, cx, cy, cz, 0) {
        1int
    } else {
        0int
    }) + (if corner_inside(f, iso, cx, cy, cz, 1) {
        2int
    } else {
        0int
    }) + (if corner_inside(f, iso, cx, cy, cz, 2) {
        4int
    } else {
        0int
    }) + (if corner_inside(f, iso, cx, cy, cz, 3) {
        8int
    } else {
        0int
    }) + (if corner_inside(f, iso, cx, cy, cz, 4) {
        16int
    } else {
        0int
    }) + (if corner_inside(f, iso, cx, cy, cz, 5) {
        32int
    } else {
        0int
    }) + (if corner_inside(f, iso, cx, cy, cz, 6) {
        64int
    } else {
        0int
    }) + (if corner_inside(f, iso, cx, cy, cz, 7) {
        128int
    } else {
        0int
    })
}

/// Fixed-point interpolation parameter along an edge with endpoint densities
/// `da`, `db`: how far from the first endpoint the surface crosses, in
/// `GRID_SCALE` units, clamped to `[0, GRID_SCALE]` to guard degenerate
/// equal-density edges. The quotient is taken with both operands
/// nonnegative, so the two cells sharing a grid edge compute the identical
/// crossing point.
pub open spec fn interp_t(da: int, db: int, iso: int) -> int {
    let num = if db > da {
        iso - da
    } else {
        da - iso
    };
    let den = if db > da {
        db - da
    } else {
        da - db
    };
    let t = num * (GRID_SCALE as int) / den;
    if t < 0 {
        0
    } else if t > GRID_SCALE {
        GRID_SCALE as int
    } else {
        t
    }
}

/// The crossing vertex on edge `e` of the cell, in fixed-point world
/// coordinates: the edge's lower corner plus `interp_t` along the edge's
/// axis.
pub open spec fn edge_vertex(
    f: DensityField,
    iso: int,
    cx: int,
    cy: int,
    cz: int,
    e: int,
) -> MeshVertex {
    let a = edge_corner_a(e);
    let b = edge_corner_b(e);
    let t = interp_t(
        corner_density(f, cx, cy, cz, a),
        corner_density(f, cx, cy, cz, b),
        iso,
    );
    MeshVertex {
        x: ((f.origin_x + cx + corner_dx(a)) * GRID_SCALE + (corner_dx(b) - corner_dx(a))
            * t) as i64,
        y: ((f.origin_y + cy + corner_dy(a)) * GRID_SCALE + (corner_dy(b) - corner_dy(a))
            * t) as i64,
        z: ((f.origin_z + cz + corner_dz(a)) * GRID_SCALE + (corner_dz(b) - corner_dz(a))
            * t) as i64,
    }
}

/// All triangle vertices the cell contributes, in triangulation-table order:
/// entry `k` of the row names the edge whose crossing point is vertex `k`.
pub open spec fn cell_triangle_vertices(
    f: DensityField,
    iso: int,
    cx: int,
    cy: int,
    cz: int,
) -> Seq<MeshVertex> {
    let m = cell_config(f, iso, cx, cy, cz);
    Seq::new(row_len(m) as nat, |k: int| edge_vertex(f, iso, cx, cy, cz, tri_entry(m, k)))
}

/// Number of triangles the cell contributes.
pub open spec fn cell_triangle_count(f: DensityField, iso: int, cx: int, cy: int, cz: int) -> int {
    row_len(cell_config(f, iso, cx, cy, cz)) / 3
}

/// The configuration mask is an 8-bit value whose bits are exactly the
/// corner tests.
pub proof fn lemma_cell_config_bits(f: DensityField, iso: int, cx: int, cy: int, cz: int)
    ensures
        0 <= cell_config(f, iso, cx, cy, cz) < 256,
        forall|i: int|
            0 <= i < 8 ==> #[trigger] corner_in(cell_config(f, iso, cx, cy, cz), i)
                == corner_inside(f, iso, cx, cy, cz, i),
{
    let b = |i: int|
        if corner_inside(f, iso, cx, cy, cz, i) {
            1int
        } else {
            0int
        };
    lemma_corner_bits(b(0), b(1), b(2), b(3), b(4), b(5), b(6), b(7));
    let m = cell_config(f, iso, cx, cy, cz);
    assert forall|i: int| 0 <= i < 8 implies #[trigger] corner_in(m, i) == corner_inside(
        f,
        iso,
        cx,
        cy,
        cz,
        i,
    ) by {
        if i == 0 {
        } else if i == 1 {
        } else if i == 2 {
        } else if i == 3 {
        } else if i == 4 {
        } else if i == 5 {
        } else if i == 6 {
        } else {
            assert(i == 7);
        }
    }
}

/// Per-cell output shape: whole triangles, at most five of them.
pub proof fn lemma_cell_output_shape(f: DensityField, iso: int, cx: int, cy: int, cz: int)
    ensures
        cell_triangle_vertices(f, iso, cx, cy, cz).len() == row_len(
            cell_config(f, iso, cx, cy, cz),
        ),
        cell_triangle_vertices(f, iso, cx, cy, cz).len() == 3 * cell_triangle_count(
            f,
            iso,
            cx,
            cy,
            cz,
        ),
        cell_triangle_vertices(f, iso, cx, cy, cz).len() <= 15,
{
    lemma_cell_config_bits(f, iso, cx, cy, cz);
    lemma_row_ok(cell_config(f, iso, cx, cy, cz));
}

/// A fixed-point coordinate built from a bounded lattice position and a
/// bounded interpolation offset stays far inside the representable range.
pub proof fn lemma_scaled_coord_bounds(o: int, c: int, t: int)
    requires
        -ORIGIN_LIMIT <= o <= ORIGIN_LIMIT,
        0 <= c <= MAX_DIM + 1,
        0 <= t <= GRID_SCALE,
    ensures
        -(ORIGIN_LIMIT as int) * (GRID_SCALE as int) <= (o + c) * (GRID_SCALE as int)
            <= ((ORIGIN_LIMIT + MAX_DIM + 1) as int) * (GRID_SCALE as int),
        forall|d: int|
            0 <= d <= 1 ==> 0 <= #[trigger] (d * t) <= GRID_SCALE,
{
    assert((o + c) * 65536 <= (1048576 + 65) * 65536 && (o + c) * 65536 >= -1048576 * 65536)
        by (nonlinear_arith)
        requires
            -1048576 <= o + c <= 1048576 + 65,
    ;
    assert forall|d: int| 0 <= d <= 1 implies 0 <= #[trigger] (d * t) <= GRID_SCALE by {
        assert(0 <= d * t <= t) by (nonlinear_arith)
            requires
                0 <= d <= 1,
                0 <= t,
        ;
    }
}

/// A cell entirely inside or entirely outside the surface emits nothing.
pub proof fn lemma_trivial_cell(f: DensityField, iso: int, cx: int, cy: int, cz: int)
    requires
        cell_config(f, iso, cx, cy, cz) == 0 || cell_config(f, iso, cx, cy, cz) == 255,
    ensures
        cell_triangle_vertices(f, iso, cx, cy, cz).len() == 0,
        cell_triangle_count(f, iso, cx, cy, cz) == 0,
{
    crate::tables::lemma_trivial_configs();
}

/// Executable interpolation along a crossed edge.
fn interp(da: i64, db: i64, iso: i64) -> (t: i64)
    requires
        -DENSITY_LIMIT <= da <= DENSITY_LIMIT,
        -DENSITY_LIMIT <= db <= DENSITY_LIMIT,
        -DENSITY_LIMIT <= iso <= DENSITY_LIMIT,
        (da < iso) != (db < iso),
    ensures
        t as int == interp_t(da as int, db as int, iso as int),
        0 <= t <= GRID_SCALE,
{
    let num: i64 = if db > da {
        iso - da
    } else {
        da - iso
    };
    let den: i64 = if db > da {
        db - da
    } else {
        da - db
    };
    let t = num * GRID_SCALE / den;
    if t < 0 {
        0
    } else if t > GRID_SCALE {
        GRID_SCALE
    } else {
        t
    }
}

/// Executable classification of a cell into its configuration mask.
pub fn cell_mask(f: &DensityField, iso: i64, cx: usize, cy: usize, cz: usize) -> (m: u8)
    requires
        f.wf(),
        -DENSITY_LIMIT <= iso <= DENSITY_LIMIT,
        cx < f.dim,
        cy < f.dim,
        cz < f.dim,
    ensures
        m as int == cell_config(*f, iso as int, cx as int, cy as int, cz as int),
{
    let mut m: u8 = 0;
    if f.sample(cx, cy, cz) < iso {
        m = m + 1;
    }
    if f.sample(cx + 1, cy, cz) < iso {
        m = m + 2;
    }
    if f.sample(cx + 1, cy + 1, cz) < iso {
        m = m + 4;
    }
    if f.sample(cx, cy + 1, cz) < iso {
        m = m + 8;
    }
    if f.sample(cx, cy, cz + 1) < iso {
        m = m + 16;
    }
    if f.sample(cx + 1, cy, cz + 1) < iso {
        m = m + 32;
    }
    if f.sample(cx + 1, cy + 1, cz + 1) < iso {
        m = m + 64;
    }
    if f.sample(cx, cy + 1, cz + 1) < iso {
        m = m + 128;
    }
    m
}

/// Executable crossing vertex on edge `e` of the cell.
fn emit_edge_vertex(f: &DensityField, iso: i64, cx: usize, cy: usize, cz: usize, e: u8) -> (v:
    MeshVertex)
    requires
        f.wf(),
        -DENSITY_LIMIT <= iso <= DENSITY_LIMIT,
        cx < f.dim,
        cy < f.dim,
        cz < f.dim,
        e < 12,
        corner_inside(*f, iso as int, cx as int, cy as int, cz as int, edge_corner_a(e as int))
            != corner_inside(
            *f,
            iso as int,
            cx as int,
            cy as int,
            cz as int,
            edge_corner_b(e as int),
        ),
    ensures
        v == edge_vertex(*f, iso as int, cx as int, cy as int, cz as int, e as int),
{
    proof {
        lemma_edge_shape(e as int);
    }
    let (a, b) = edge_corners(e);
    let (ax, ay, az) = corner_offset(a);
    let (bx, by, bz) = corner_offset(b);
    let da = f.sample(cx + ax as usize, cy + ay as usize, cz + az as usize);
    let db = f.sample(cx + bx as usize, cy + by as usize, cz + bz as usize);
    let t = interp(da, db, iso);
    proof {
        lemma_scaled_coord_bounds(f.origin_x as int, cx as int + ax, t as int);
        lemma_scaled_coord_bounds(f.origin_y as int, cy as int + ay, t as int);
        lemma_scaled_coord_bounds(f.origin_z as int, cz as int + az, t as int);
    }
    let vx = (f.origin_x + cx as i64 + ax as i64) * GRID_SCALE + ((bx - ax) as i64) * t;
    let vy = (f.origin_y + cy as i64 + ay as i64) * GRID_SCALE + ((by - ay) as i64) * t;
    let vz = (f.origin_z + cz as i64 + az as i64) * GRID_SCALE + ((bz - az) as i64) * t;
    MeshVertex { x: vx, y: vy, z: vz }
}

/// Extract one cell: classify it, and append its triangles to the output
/// buffer, reserving each triangle's three slots through the coordinator.
/// The reserved base offset always equals the buffer's write position.
#[verifier::rlimit(100)]
#[verifier::spinoff_prover]
#[verifier::loop_isolation(false)]
pub fn extract_cell(
    f: &DensityField,
    iso: i64,
    cx: usize,
    cy: usize,
    cz: usize,
    out: &mut Vec<MeshVertex>,
    args: &mut IndirectDrawArgs,
)
    requires
        f.wf(),
        -DENSITY_LIMIT <= iso <= DENSITY_LIMIT,
        cx < f.dim,
        cy < f.dim,
        cz < f.dim,
        old(args).vertex_count == old(out).len(),
        old(args).defaults_ok(),
        old(out).len() + 15 <= u32::MAX,
    ensures
        final(out)@ == old(out)@ + cell_triangle_vertices(
            *f,
            iso as int,
            cx as int,
            cy as int,
            cz as int,
        ),
        final(args).vertex_count == final(out).len(),
        final(args).defaults_ok(),
{
    let ghost fm = *f;
    let ghost ciso = iso as int;
    let ghost gcx = cx as int;
    let ghost gcy = cy as int;
    let ghost gcz = cz as int;
    let m = cell_mask(f, iso, cx, cy, cz);
    proof {
        lemma_cell_config_bits(fm, ciso, gcx, gcy, gcz);
        lemma_row_ok(m as int);
    }
    let ghost cell = cell_triangle_vertices(fm, ciso, gcx, gcy, gcz);
    let ghost len = row_len(m as int);
    let mut j: usize = 0;
    let mut e0 = tri_table_entry(m, 0);
    while e0 >= 0
        invariant
            j % 3 == 0,
            0 <= j <= len,
            e0 as int == tri_entry(m as int, j as int),
            out@ == old(out)@ + cell.subrange(0, j as int),
            args.vertex_count == out.len(),
            args.defaults_ok(),
        decreases 16 - j,
    {
        proof {
            assert(entry_ok(m as int, j as int));
            assert(j < len);
            assert(entry_ok(m as int, j + 1));
            assert(entry_ok(m as int, j + 2));
            lemma_edge_shape(tri_entry(m as int, j as int));
            lemma_edge_shape(tri_entry(m as int, j + 1));
            lemma_edge_shape(tri_entry(m as int, j + 2));
        }
        let e1 = tri_table_entry(m, j + 1);
        let e2 = tri_table_entry(m, j + 2);
        let base = args.reserve(3);
        assert(base == out.len());
        let v0 = emit_edge_vertex(f, iso, cx, cy, cz, e0 as u8);
        let v1 = emit_edge_vertex(f, iso, cx, cy, cz, e1 as u8);
        let v2 = emit_edge_vertex(f, iso, cx, cy, cz, e2 as u8);
        out.push(v0);
        out.push(v1);
        out.push(v2);
        proof {
            assert(cell[j as int] == v0);
            assert(cell[j + 1] == v1);
            assert(cell[j + 2] == v2);
            assert(out@ =~= old(out)@ + cell.subrange(0, j + 3));
        }
        j = j + 3;
        e0 = tri_table_entry(m, j);
    }
    proof {
        assert(entry_ok(m as int, j as int));
        assert(j == len);
        assert(cell.subrange(0, len as int) =~= cell);
    }
}

/// x coordinate of the cell with linear index `c` (cells walked x-fastest).
pub open spec fn cell_x(dim: int, c: int) -> int {
    c % dim
}

/// y coordinate of the cell with linear index `c`.
pub open spec fn cell_y(dim: int, c: int) -> int {
    (c / dim) % dim
}

/// z coordinate of the cell with linear index `c`.
pub open spec fn cell_z(dim: int, c: int) -> int {
    c / dim / dim
}

/// Concatenated output of the first `c` cells, in extraction order.
pub open spec fn chunk_vertices_upto(f: DensityField, iso: int, c: int) -> Seq<MeshVertex>
    decreases c,
{
    if c <= 0 {
        Seq::empty()
    } else {
        chunk_vertices_upto(f, iso, c - 1) + cell_triangle_vertices(
            f,
            iso,
            cell_x(f.dim as int, c - 1),
            cell_y(f.dim as int, c - 1),
            cell_z(f.dim as int, c - 1),
        )
    }
}

/// Everything the chunk contributes to the vertex buffer: the outputs of all
/// `dim^3` cells, in order. A pure function of the field and the threshold
/// alone, which is what makes chunks isolated from one another.
pub open spec fn chunk_vertices(f: DensityField, iso: int) -> Seq<MeshVertex> {
    chunk_vertices_upto(f, iso, f.dim * f.dim * f.dim)
}

/// Total triangles of the first `c` cells.
pub open spec fn chunk_triangles_upto(f: DensityField, iso: int, c: int) -> int
    decreases c,
{
    if c <= 0 {
        0
    } else {
        chunk_triangles_upto(f, iso, c - 1) + cell_triangle_count(
            f,
            iso,
            cell_x(f.dim as int, c - 1),
            cell_y(f.dim as int, c - 1),
            cell_z(f.dim as int, c - 1),
        )
    }
}

/// Total triangles the chunk emits.
pub open spec fn chunk_triangle_count(f: DensityField, iso: int) -> int {
    chunk_triangles_upto(f, iso, f.dim * f.dim * f.dim)
}

/// Prefix sums: `c` cells emit three vertices per triangle and at most 15
/// vertices per cell.
pub proof fn lemma_chunk_prefix_len(f: DensityField, iso: int, c: int)
    requires
        c >= 0,
    ensures
        chunk_vertices_upto(f, iso, c).len() == 3 * chunk_triangles_upto(f, iso, c),
        chunk_vertices_upto(f, iso, c).len() <= 15 * c,
        chunk_triangles_upto(f, iso, c) >= 0,
    decreases c,
{
    if c > 0 {
        lemma_chunk_prefix_len(f, iso, c - 1);
        lemma_cell_output_shape(
            f,
            iso,
            cell_x(f.dim as int, c - 1),
            cell_y(f.dim as int, c - 1),
            cell_z(f.dim as int, c - 1),
        );
    }
}

/// Counter correctness: the chunk's final vertex count is exactly three times
/// the number of triangles its cells emit.
pub proof fn lemma_counter_equals_triangles(f: DensityField, iso: int)
    requires
        f.wf(),
    ensures
        chunk_vertices(f, iso).len() == 3 * chunk_triangle_count(f, iso),
{
    let cells = (f.dim * f.dim * f.dim) as int;
    assert(cells >= 0) by (nonlinear_arith)
        requires
            cells == (f.dim as int) * (f.dim as int) * (f.dim as int),
            f.dim >= 1,
    ;
    lemma_chunk_prefix_len(f, iso, cells);
}

/// Capacity planning: the chunk's output never exceeds 15 vertices (5
/// triangles) per cell, so a buffer of `15 * dim^3` slots cannot overflow.
pub proof fn lemma_vertex_capacity(f: DensityField, iso: int)
    requires
        f.wf(),
    ensures
        chunk_vertices(f, iso).len() <= 15 * (f.dim * f.dim * f.dim),
{
    let cells = (f.dim * f.dim * f.dim) as int;
    assert(cells >= 0) by (nonlinear_arith)
        requires
            cells == (f.dim as int) * (f.dim as int) * (f.dim as int),
            f.dim >= 1,
    ;
    lemma_chunk_prefix_len(f, iso, cells);
}

/// The vertex lies inside the fixed-point bounding box of cell
/// `(cx, cy, cz)`.
pub open spec fn in_cell_box(f: DensityField, cx: int, cy: int, cz: int, v: MeshVertex) -> bool {
    &&& (f.origin_x + cx) * GRID_SCALE <= v.x <= (f.origin_x + cx + 1) * GRID_SCALE
    &&& (f.origin_y + cy) * GRID_SCALE <= v.y <= (f.origin_y + cy + 1) * GRID_SCALE
    &&& (f.origin_z + cz) * GRID_SCALE <= v.z <= (f.origin_z + cz + 1) * GRID_SCALE
}

/// The vertex lies inside the chunk's fixed-point bounding cube.
pub open spec fn in_chunk_box(f: DensityField, v: MeshVertex) -> bool {
    &&& f.origin_x * GRID_SCALE <= v.x <= (f.origin_x + f.dim) * GRID_SCALE
    &&& f.origin_y * GRID_SCALE <= v.y <= (f.origin_y + f.dim) * GRID_SCALE
    &&& f.origin_z * GRID_SCALE <= v.z <= (f.origin_z + f.dim) * GRID_SCALE
}

/// Interpolated vertices cannot leave their edge: the crossing point on any
/// edge of a cell stays inside that cell's bounding box.
pub proof fn lemma_edge_vertex_in_cell(
    f: DensityField,
    iso: int,
    cx: int,
    cy: int,
    cz: int,
    e: int,
)
    requires
        f.wf(),
        0 <= cx < f.dim,
        0 <= cy < f.dim,
        0 <= cz < f.dim,
        0 <= e < 12,
    ensures
        in_cell_box(f, cx, cy, cz, edge_vertex(f, iso, cx, cy, cz, e)),
{
    lemma_edge_shape(e);
    let a = edge_corner_a(e);
    let b = edge_corner_b(e);
    let t = interp_t(
        corner_density(f, cx, cy, cz, a),
        corner_density(f, cx, cy, cz, b),
        iso,
    );
    assert(0 <= t <= GRID_SCALE);
    assert(0 <= (corner_dx(b) - corner_dx(a)) * t <= (corner_dx(b) - corner_dx(a)) * 65536)
        by (nonlinear_arith)
        requires
            0 <= corner_dx(b) - corner_dx(a) <= 1,
            0 <= t <= 65536,
    ;
    assert(0 <= (corner_dy(b) - corner_dy(a)) * t <= (corner_dy(b) - corner_dy(a)) * 65536)
        by (nonlinear_arith)
        requires
            0 <= corner_dy(b) - corner_dy(a) <= 1,
            0 <= t <= 65536,
    ;
    assert(0 <= (corner_dz(b) - corner_dz(a)) * t <= (corner_dz(b) - corner_dz(a)) * 65536)
        by (nonlinear_arith)
        requires
            0 <= corner_dz(b) - corner_dz(a) <= 1,
            0 <= t <= 65536,
    ;
}

/// Cells adjacent along x interpolate bit-identical crossing points on the
/// four grid edges of their shared face: each pairs a face edge of the first
/// cell with the matching edge of the second, both oriented from the
/// lower-coordinate corner.
pub proof fn lemma_shared_edges_agree_x(f: DensityField, iso: int, cx: int, cy: int, cz: int)
    requires
        f.wf(),
        0 <= cx,
        cx + 1 < f.dim,
        0 <= cy < f.dim,
        0 <= cz < f.dim,
    ensures
        edge_vertex(f, iso, cx, cy, cz, 1) == edge_vertex(f, iso, cx + 1, cy, cz, 3),
        edge_vertex(f, iso, cx, cy, cz, 5) == edge_vertex(f, iso, cx + 1, cy, cz, 7),
        edge_vertex(f, iso, cx, cy, cz, 9) == edge_vertex(f, iso, cx + 1, cy, cz, 8),
        edge_vertex(f, iso, cx, cy, cz, 10) == edge_vertex(f, iso, cx + 1, cy, cz, 11),
{
}

/// The same agreement for cells adjacent along y.
pub proof fn lemma_shared_edges_agree_y(f: DensityField, iso: int, cx: int, cy: int, cz: int)
    requires
        f.wf(),
        0 <= cx < f.dim,
        0 <= cy,
        cy + 1 < f.dim,
        0 <= cz < f.dim,
    ensures
        edge_vertex(f, iso, cx, cy, cz, 2) == edge_vertex(f, iso, cx, cy + 1, cz, 0),
        edge_vertex(f, iso, cx, cy, cz, 6) == edge_vertex(f, iso, cx, cy + 1, cz, 4),
        edge_vertex(f, iso, cx, cy, cz, 10) == edge_vertex(f, iso, cx, cy + 1, cz, 9),
        edge_vertex(f, iso, cx, cy, cz, 11) == edge_vertex(f, iso, cx, cy + 1, cz, 8),
{
}

/// The same agreement for cells adjacent along z.
pub proof fn lemma_shared_edges_agree_z(f: DensityField, iso: int, cx: int, cy: int, cz: int)
    requires
        f.wf(),
        0 <= cx < f.dim,
        0 <= cy < f.dim,
        0 <= cz,
        cz + 1 < f.dim,
    ensures
        edge_vertex(f, iso, cx, cy, cz, 4) == edge_vertex(f, iso, cx, cy, cz + 1, 0),
        edge_vertex(f, iso, cx, cy, cz, 5) == edge_vertex(f, iso, cx, cy, cz + 1, 1),
        edge_vertex(f, iso, cx, cy, cz, 6) == edge_vertex(f, iso, cx, cy, cz + 1, 2),
        edge_vertex(f, iso, cx, cy, cz, 7) == edge_vertex(f, iso, cx, cy, cz + 1, 3),
{
}

/// Interpolated vertices lie on their edge: on the two axes the edge does
/// not span, the vertex keeps the corners' coordinate exactly, and on the
/// spanned axis it lies between the two endpoints.
pub proof fn lemma_vertex_on_edge(f: DensityField, iso: int, cx: int, cy: int, cz: int, e: int)
    requires
        f.wf(),
        0 <= cx < f.dim,
        0 <= cy < f.dim,
        0 <= cz < f.dim,
        0 <= e < 12,
    ensures
        ({
            let a = edge_corner_a(e);
            let b = edge_corner_b(e);
            let v = edge_vertex(f, iso, cx, cy, cz, e);
            &&& corner_dx(a) == corner_dx(b) ==> v.x == (f.origin_x + cx + corner_dx(a))
                * GRID_SCALE
            &&& corner_dy(a) == corner_dy(b) ==> v.y == (f.origin_y + cy + corner_dy(a))
                * GRID_SCALE
            &&& corner_dz(a) == corner_dz(b) ==> v.z == (f.origin_z + cz + corner_dz(a))
                * GRID_SCALE
            &&& (f.origin_x + cx + corner_dx(a)) * GRID_SCALE <= v.x <= (f.origin_x + cx
                + corner_dx(b)) * GRID_SCALE
            &&& (f.origin_y + cy + corner_dy(a)) * GRID_SCALE <= v.y <= (f.origin_y + cy
                + corner_dy(b)) * GRID_SCALE
            &&& (f.origin_z + cz + corner_dz(a)) * GRID_SCALE <= v.z <= (f.origin_z + cz
                + corner_dz(b)) * GRID_SCALE
        }),
{
    lemma_edge_shape(e);
    let a = edge_corner_a(e);
    let b = edge_corner_b(e);
    let t = interp_t(
        corner_density(f, cx, cy, cz, a),
        corner_density(f, cx, cy, cz, b),
        iso,
    );
    assert(0 <= t <= GRID_SCALE);
    assert(0 <= (corner_dx(b) - corner_dx(a)) * t <= (corner_dx(b) - corner_dx(a)) * 65536)
        by (nonlinear_arith)
        requires
            0 <= corner_dx(b) - corner_dx(a) <= 1,
            0 <= t <= 65536,
    ;
    assert(0 <= (corner_dy(b) - corner_dy(a)) * t <= (corner_dy(b) - corner_dy(a)) * 65536)
        by (nonlinear_arith)
        requires
            0 <= corner_dy(b) - corner_dy(a) <= 1,
            0 <= t <= 65536,
    ;
    assert(0 <= (corner_dz(b) - corner_dz(a)) * t <= (corner_dz(b) - corner_dz(a)) * 65536)
        by (nonlinear_arith)
        requires
            0 <= corner_dz(b) - corner_dz(a) <= 1,
            0 <= t <= 65536,
    ;
}

/// No vertex among the first `c` cells' output lies outside the chunk's
/// bounding cube.
proof fn lemma_vertices_in_chunk_upto(f: DensityField, iso: int, c: int)
    requires
        f.wf(),
        0 <= c <= (f.dim * f.dim * f.dim) as int,
    ensures
        forall|i: int|
            0 <= i < chunk_vertices_upto(f, iso, c).len() ==> in_chunk_box(
                f,
                #[trigger] chunk_vertices_upto(f, iso, c)[i],
            ),
    decreases c,
{
    if c > 0 {
        lemma_vertices_in_chunk_upto(f, iso, c - 1);
        let dim = f.dim as int;
        crate::indexing::lemma_flat_index_surjective(dim, c - 1);
        let cx = cell_x(dim, c - 1);
        let cy = cell_y(dim, c - 1);
        let cz = cell_z(dim, c - 1);
        let m = cell_config(f, iso, cx, cy, cz);
        lemma_cell_config_bits(f, iso, cx, cy, cz);
        lemma_row_ok(m);
        let prior = chunk_vertices_upto(f, iso, c - 1);
        let cell = cell_triangle_vertices(f, iso, cx, cy, cz);
        assert forall|i: int|
            0 <= i < chunk_vertices_upto(f, iso, c).len() implies in_chunk_box(
            f,
            #[trigger] chunk_vertices_upto(f, iso, c)[i],
        ) by {
            if i >= prior.len() {
                let k = i - prior.len();
                assert(entry_ok(m, k));
                lemma_edge_vertex_in_cell(f, iso, cx, cy, cz, tri_entry(m, k));
                assert(cell[k] == edge_vertex(f, iso, cx, cy, cz, tri_entry(m, k)));
            }
        }
    }
}

/// Geometric containment: every vertex the chunk emits lies inside the
/// chunk's fixed-point bounding cube, so no triangle references a position
/// outside the chunk.
pub proof fn lemma_vertices_in_chunk(f: DensityField, iso: int)
    requires
        f.wf(),
    ensures
        forall|i: int|
            0 <= i < chunk_vertices(f, iso).len() ==> in_chunk_box(
                f,
                #[trigger] chunk_vertices(f, iso)[i],
            ),
{
    let cells = (f.dim * f.dim * f.dim) as int;
    assert(cells >= 0) by (nonlinear_arith)
        requires
            cells == (f.dim as int) * (f.dim as int) * (f.dim as int),
            f.dim >= 1,
    ;
    lemma_vertices_in_chunk_upto(f, iso, cells);
}

/// Extract a whole chunk: walk every cell in x-fastest order and fill the
/// output buffer and the draw arguments from scratch. The final buffer and
/// count are functions of the field and the threshold alone; nothing of the
/// buffer's previous contents survives.
#[verifier::rlimit(100)]
#[verifier::spinoff_prover]
#[verifier::loop_isolation(false)]
pub fn extract_chunk(
    f: &DensityField,
    iso: i64,
    out: &mut Vec<MeshVertex>,
    args: &mut IndirectDrawArgs,
)
    requires
        f.wf(),
        -DENSITY_LIMIT <= iso <= DENSITY_LIMIT,
        old(args).is_reset(),
    ensures
        final(out)@ == chunk_vertices(*f, iso as int),
        final(args).vertex_count == final(out).len(),
        final(args).defaults_ok(),
        final(args).vertex_count as int == 3 * chunk_triangle_count(*f, iso as int),
{
    let ghost fm = *f;
    let ghost ciso = iso as int;
    let dim = f.dim;
    let ghost gd = dim as int;
    proof {
        assert(gd * gd * gd <= 64 * 64 * 64 && 0 <= gd * gd * gd) by (nonlinear_arith)
            requires
                1 <= gd <= 64,
        ;
    }
    out.clear();
    args.reset();
    let mut z: usize = 0;
    while z < dim
        invariant
            z <= dim,
            out@ == chunk_vertices_upto(fm, ciso, z * gd * gd),
            args.vertex_count == out.len(),
            args.defaults_ok(),
        decreases dim - z,
    {
        let mut y: usize = 0;
        while y < dim
            invariant
                z < dim,
                y <= dim,
                out@ == chunk_vertices_upto(fm, ciso, (z * gd + y) * gd),
                args.vertex_count == out.len(),
                args.defaults_ok(),
            decreases dim - y,
        {
            let mut x: usize = 0;
            while x < dim
                invariant
                    z < dim,
                    y < dim,
                    x <= dim,
                    out@ == chunk_vertices_upto(fm, ciso, (z * gd + y) * gd + x),
                    args.vertex_count == out.len(),
                    args.defaults_ok(),
                decreases dim - x,
            {
                let ghost c = (z * gd + y) * gd + x;
                proof {
                    crate::indexing::lemma_flat_index_bounds(gd, x as int, y as int, z as int);
                    crate::indexing::lemma_flat_index_coords(gd, x as int, y as int, z as int);
                    assert(c < gd * gd * gd);
                    lemma_chunk_prefix_len(fm, ciso, c);
                    assert(out.len() + 15 <= u32::MAX);
                }
                extract_cell(f, iso, x, y, z, out, args);
                x = x + 1;
            }
            proof {
                assert((z * gd + (y + 1)) * gd == (z * gd + y) * gd + gd) by (nonlinear_arith);
            }
            y = y + 1;
        }
        proof {
            assert(((z + 1) * gd) * gd == (z * gd + gd) * gd) by (nonlinear_arith);
            assert((z + 1) * gd * gd == ((z + 1) * gd) * gd);
        }
        z = z + 1;
    }
    proof {
        assert(out@ == chunk_vertices_upto(fm, ciso, gd * gd * gd));
        assert(gd * gd * gd == (f.dim * f.dim * f.dim) as int);
        lemma_counter_equals_triangles(fm, ciso);
    }
}

} // verus!
