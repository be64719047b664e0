//! The chunk orchestrator: partitions the working volume into a fixed 2x2x2
//! arrangement of chunks and, per frame, runs each chunk's
//! reset - generate - extract cycle in a fixed order. Rendering consumes each
//! chunk's buffers right after its cycle; the per-frame sequencing itself is
//! the `FrameMachine` state machine.
//!
//! No state persists between chunks or frames beyond the animation time: the
//! coordinator is reset and the buffers are rewritten from scratch for every
//! chunk, so each chunk's output is a pure function of its offset and the
//! time.

use crate::cube::lemma_edge_shape;
use crate::density::{
    lemma_generator_deterministic, DensityField, DENSITY_LIMIT, MAX_DIM, ORIGIN_LIMIT, TIME_LIMIT,
};
use crate::draw::IndirectDrawArgs;
use crate::extract::{
    cell_config, cell_triangle_count, cell_triangle_vertices, cell_x, cell_y, cell_z,
    chunk_triangle_count, chunk_triangles_upto, chunk_vertices, chunk_vertices_upto,
    corner_density, edge_vertex, extract_chunk, lemma_cell_config_bits, MeshVertex,
};
use crate::tables::{entry_ok, lemma_row_ok};
use crate::tri_data::tri_entry;
use vstd::prelude::*;

verus! {

/// Number of chunks processed per frame: a 2 x 2 x 2 grid.
pub const CHUNK_COUNT: usize = 8;

/// Per-chunk resolution used by the cloud pipeline.
pub const CELLS_PER_CHUNK_DIM: usize = 50;

/// x offset (in cells) of chunk `id` within the working volume.
pub open spec fn chunk_offset_x(id: int, dim: int) -> int {
    (id % 2) * dim
}

/// y offset (in cells) of chunk `id` within the working volume.
pub open spec fn chunk_offset_y(id: int, dim: int) -> int {
    ((id / 2) % 2) * dim
}

/// z offset (in cells) of chunk `id` within the working volume.
pub open spec fn chunk_offset_z(id: int, dim: int) -> int {
    (id / 4) * dim
}

/// Executable chunk offsets.
pub fn chunk_offset(id: usize, dim: usize) -> (o: (i64, i64, i64))
    requires
        id < CHUNK_COUNT,
        1 <= dim <= MAX_DIM,
    ensures
        o.0 == chunk_offset_x(id as int, dim as int),
        o.1 == chunk_offset_y(id as int, dim as int),
        o.2 == chunk_offset_z(id as int, dim as int),
        -ORIGIN_LIMIT <= o.0 <= ORIGIN_LIMIT,
        -ORIGIN_LIMIT <= o.1 <= ORIGIN_LIMIT,
        -ORIGIN_LIMIT <= o.2 <= ORIGIN_LIMIT,
{
    let ox: i64 = if id % 2 == 1 {
        dim as i64
    } else {
        0
    };
    let oy: i64 = if (id / 2) % 2 == 1 {
        dim as i64
    } else {
        0
    };
    let oz: i64 = if id / 4 == 1 {
        dim as i64
    } else {
        0
    };
    (ox, oy, oz)
}

/// Chunks tile the working volume disjointly: two distinct chunks' cell
/// ranges are separated by a whole chunk width on at least one axis.
pub proof fn lemma_chunks_disjoint(id1: int, id2: int, dim: int)
    requires
        0 <= id1 < 8,
        0 <= id2 < 8,
        id1 != id2,
        1 <= dim,
    ensures
        chunk_offset_x(id1, dim) + dim <= chunk_offset_x(id2, dim) || chunk_offset_x(id2, dim)
            + dim <= chunk_offset_x(id1, dim) || chunk_offset_y(id1, dim) + dim <= chunk_offset_y(
            id2,
            dim,
        ) || chunk_offset_y(id2, dim) + dim <= chunk_offset_y(id1, dim) || chunk_offset_z(id1, dim)
            + dim <= chunk_offset_z(id2, dim) || chunk_offset_z(id2, dim) + dim <= chunk_offset_z(
            id1,
            dim,
        ),
{
    let bx1 = id1 % 2;
    let by1 = (id1 / 2) % 2;
    let bz1 = id1 / 4;
    let bx2 = id2 % 2;
    let by2 = (id2 / 2) % 2;
    let bz2 = id2 / 4;
    assert(id1 / 2 / 2 == id1 / 4 && id2 / 2 / 2 == id2 / 4) by {
        vstd::arithmetic::div_mod::lemma_div_denominator(id1, 2, 2);
        vstd::arithmetic::div_mod::lemma_div_denominator(id2, 2, 2);
    }
    assert(id1 == bx1 + 2 * by1 + 4 * bz1 && id2 == bx2 + 2 * by2 + 4 * bz2);
    assert(bx1 != bx2 || by1 != by2 || bz1 != bz2);
    if bx1 != bx2 {
        lemma_separated_by_bit(bx1, bx2, dim);
    } else if by1 != by2 {
        lemma_separated_by_bit(by1, by2, dim);
    } else {
        lemma_separated_by_bit(bz1, bz2, dim);
    }
}

/// Cells scaled by differing 0/1 digits are a whole width apart.
proof fn lemma_separated_by_bit(b1: int, b2: int, d: int)
    by (nonlinear_arith)
    requires
        0 <= b1 <= 1,
        0 <= b2 <= 1,
        b1 != b2,
        1 <= d,
    ensures
        b1 * d + d <= b2 * d || b2 * d + d <= b1 * d,
{
}

/// What one reset - generate - extract cycle leaves behind for chunk `id` at
/// time `t`: a generated field at the chunk's offset, the buffer holding
/// exactly that field's extraction, and the coordinator counting it.
pub open spec fn chunk_run_post(
    field: DensityField,
    verts: Seq<MeshVertex>,
    args: IndirectDrawArgs,
    id: int,
    dim: int,
    t: int,
    iso: int,
) -> bool {
    &&& field.wf()
    &&& field.dim == dim
    &&& field.origin_x == chunk_offset_x(id, dim)
    &&& field.origin_y == chunk_offset_y(id, dim)
    &&& field.origin_z == chunk_offset_z(id, dim)
    &&& field.is_generated(t)
    &&& verts == chunk_vertices(field, iso)
    &&& args.vertex_count == verts.len()
    &&& args.defaults_ok()
}

/// Run one chunk's cycle in place: reset the coordinator, generate the
/// chunk's density field, extract it into the (rewritten) vertex buffer.
/// The buffers' previous contents, whichever chunk left them, do not survive.
pub fn run_chunk(
    id: usize,
    dim: usize,
    t: i64,
    iso: i64,
    out: &mut Vec<MeshVertex>,
    args: &mut IndirectDrawArgs,
) -> (field: DensityField)
    requires
        id < CHUNK_COUNT,
        1 <= dim <= MAX_DIM,
        -TIME_LIMIT <= t <= TIME_LIMIT,
        -DENSITY_LIMIT <= iso <= DENSITY_LIMIT,
    ensures
        chunk_run_post(
            field,
            final(out)@,
            *final(args),
            id as int,
            dim as int,
            t as int,
            iso as int,
        ),
{
    args.reset();
    let (ox, oy, oz) = chunk_offset(id, dim);
    let field = DensityField::generate(dim, ox, oy, oz, t);
    extract_chunk(&field, iso, out, args);
    field
}

/// The extractor reads nothing of a field but its resolution, origin and
/// samples: fields with identical contents extract to identical meshes.
pub proof fn lemma_extraction_congruent(f1: DensityField, f2: DensityField, iso: int)
    requires
        f1.wf(),
        f2.wf(),
        f1.dim == f2.dim,
        f1.origin_x == f2.origin_x,
        f1.origin_y == f2.origin_y,
        f1.origin_z == f2.origin_z,
        f1.samples@ == f2.samples@,
    ensures
        chunk_vertices(f1, iso) == chunk_vertices(f2, iso),
        chunk_triangle_count(f1, iso) == chunk_triangle_count(f2, iso),
{
    lemma_extraction_congruent_upto(f1, f2, iso, (f1.dim * f1.dim * f1.dim) as int);
}

proof fn lemma_cell_congruent(f1: DensityField, f2: DensityField, iso: int, cx: int, cy: int, cz: int)
    requires
        f1.wf(),
        f2.wf(),
        f1.dim == f2.dim,
        f1.origin_x == f2.origin_x,
        f1.origin_y == f2.origin_y,
        f1.origin_z == f2.origin_z,
        f1.samples@ == f2.samples@,
    ensures
        cell_triangle_vertices(f1, iso, cx, cy, cz) == cell_triangle_vertices(f2, iso, cx, cy, cz),
        cell_triangle_count(f1, iso, cx, cy, cz) == cell_triangle_count(f2, iso, cx, cy, cz),
{
    assert forall|i: int| 0 <= i < 8 implies #[trigger] corner_density(f1, cx, cy, cz, i)
        == corner_density(f2, cx, cy, cz, i) by {
        assert(f1.samples[crate::density::sample_index(f1.dim as int, cx
            + crate::cube::corner_dx(i), cy + crate::cube::corner_dy(i), cz
            + crate::cube::corner_dz(i))] == f2.samples[crate::density::sample_index(
            f2.dim as int,
            cx + crate::cube::corner_dx(i),
            cy + crate::cube::corner_dy(i),
            cz + crate::cube::corner_dz(i),
        )]);
    }
    let m = cell_config(f1, iso, cx, cy, cz);
    assert(cell_config(f2, iso, cx, cy, cz) == m);
    lemma_cell_config_bits(f1, iso, cx, cy, cz);
    lemma_row_ok(m);
    let s1 = cell_triangle_vertices(f1, iso, cx, cy, cz);
    let s2 = cell_triangle_vertices(f2, iso, cx, cy, cz);
    assert forall|k: int| 0 <= k < s1.len() implies s1[k] == s2[k] by {
        assert(entry_ok(m, k));
        let e = tri_entry(m, k);
        lemma_edge_shape(e);
        assert(edge_vertex(f1, iso, cx, cy, cz, e) == edge_vertex(f2, iso, cx, cy, cz, e));
    }
    assert(s1 =~= s2);
}

proof fn lemma_extraction_congruent_upto(f1: DensityField, f2: DensityField, iso: int, c: int)
    requires
        f1.wf(),
        f2.wf(),
        f1.dim == f2.dim,
        f1.origin_x == f2.origin_x,
        f1.origin_y == f2.origin_y,
        f1.origin_z == f2.origin_z,
        f1.samples@ == f2.samples@,
    ensures
        chunk_vertices_upto(f1, iso, c) == chunk_vertices_upto(f2, iso, c),
        chunk_triangles_upto(f1, iso, c) == chunk_triangles_upto(f2, iso, c),
    decreases c,
{
    if c > 0 {
        lemma_extraction_congruent_upto(f1, f2, iso, c - 1);
        lemma_cell_congruent(
            f1,
            f2,
            iso,
            cell_x(f1.dim as int, c - 1),
            cell_y(f1.dim as int, c - 1),
            cell_z(f1.dim as int, c - 1),
        );
    }
}

/// Chunk isolation: the buffers a cycle leaves behind are the same whatever
/// ran before it. Two cycles for the same chunk and time, whatever the
/// buffers held when each started, leave identical vertices and counts; in
/// particular nothing of one chunk leaks into the next once the coordinator
/// is reset between them.
pub proof fn lemma_chunk_isolation(
    fa: DensityField,
    va: Seq<MeshVertex>,
    aa: IndirectDrawArgs,
    fb: DensityField,
    vb: Seq<MeshVertex>,
    ab: IndirectDrawArgs,
    id: int,
    dim: int,
    t: int,
    iso: int,
)
    requires
        chunk_run_post(fa, va, aa, id, dim, t, iso),
        chunk_run_post(fb, vb, ab, id, dim, t, iso),
    ensures
        va == vb,
        aa.vertex_count == ab.vertex_count,
{
    lemma_generator_deterministic(fa, fb, t);
    lemma_extraction_congruent(fa, fb, iso);
}

/// What the device reported when a frame failed. The driving layer maps its
/// graphics API's error type onto these.
#[derive(Clone, Copy, Debug, PartialEq, Eq, Structural)]
pub enum DeviceReport {
    SurfaceLost,
    OutOfMemory,
    Outdated,
    Timeout,
}

/// What the driving layer does about a failed frame.
#[derive(Clone, Copy, Debug, PartialEq, Eq, Structural)]
pub enum FrameAction {
    Reconfigure,
    SkipFrame,
    Terminate,
}

/// The frame error policy: a transiently lost surface gets one
/// reconfiguration attempt and a permanently lost one terminates, memory
/// exhaustion terminates, and timing errors only drop the frame - safe
/// because every frame is regenerated from scratch.
pub open spec fn error_policy(report: DeviceReport, already_retried: bool) -> FrameAction {
    match report {
        DeviceReport::SurfaceLost => if already_retried {
            FrameAction::Terminate
        } else {
            FrameAction::Reconfigure
        },
        DeviceReport::OutOfMemory => FrameAction::Terminate,
        DeviceReport::Outdated => FrameAction::SkipFrame,
        DeviceReport::Timeout => FrameAction::SkipFrame,
    }
}

/// Decide what to do about a failed frame.
pub fn frame_error_action(report: DeviceReport, already_retried: bool) -> (a: FrameAction)
    ensures
        a == error_policy(report, already_retried),
{
    match report {
        DeviceReport::SurfaceLost => if already_retried {
            FrameAction::Terminate
        } else {
            FrameAction::Reconfigure
        },
        DeviceReport::OutOfMemory => FrameAction::Terminate,
        DeviceReport::Outdated => FrameAction::SkipFrame,
        DeviceReport::Timeout => FrameAction::SkipFrame,
    }
}

/// The stages a frame passes through for each chunk, in order; `Idle` and
/// `Presented` frame the whole sequence.
#[derive(Clone, Copy, Debug, PartialEq, Eq, Structural)]
pub enum Stage {
    Idle,
    Reset,
    Generate,
    Extract,
    Render,
    Presented,
}

/// The per-frame state machine:
/// `Idle -> {for each chunk: Reset -> Generate -> Extract -> Render} ->
/// Presented -> Idle`. The controlling process issues each stage in this
/// order; nothing persists into the next frame.
pub struct FrameMachine {
    pub chunk_count: usize,
    pub chunk: usize,
    pub stage: Stage,
}

impl FrameMachine {
    /// The chunk cursor is meaningful only while a chunk's cycle is running.
    pub open spec fn wf(self) -> bool {
        &&& self.chunk_count >= 1
        &&& match self.stage {
            Stage::Idle => self.chunk == 0,
            Stage::Presented => self.chunk == 0,
            _ => self.chunk < self.chunk_count,
        }
    }

    /// The state that follows in the frame's fixed deterministic order.
    pub open spec fn next_spec(self) -> FrameMachine {
        match self.stage {
            Stage::Idle => FrameMachine { stage: Stage::Reset, chunk: 0, ..self },
            Stage::Reset => FrameMachine { stage: Stage::Generate, ..self },
            Stage::Generate => FrameMachine { stage: Stage::Extract, ..self },
            Stage::Extract => FrameMachine { stage: Stage::Render, ..self },
            Stage::Render => if self.chunk + 1 < self.chunk_count {
                FrameMachine { stage: Stage::Reset, chunk: (self.chunk + 1) as usize, ..self }
            } else {
                FrameMachine { stage: Stage::Presented, chunk: 0, ..self }
            },
            Stage::Presented => FrameMachine { stage: Stage::Idle, ..self },
        }
    }

    /// A fresh frame, idle before its first chunk.
    pub fn new(chunk_count: usize) -> (m: FrameMachine)
        requires
            chunk_count >= 1,
        ensures
            m.wf(),
            m.chunk_count == chunk_count,
            m.stage == Stage::Idle,
    {
        FrameMachine { chunk_count, chunk: 0, stage: Stage::Idle }
    }

    /// Step to the next stage of the frame.
    pub fn advance(&mut self)
        requires
            old(self).wf(),
        ensures
            *final(self) == old(self).next_spec(),
            final(self).wf(),
    {
        match self.stage {
            Stage::Idle => {
                self.stage = Stage::Reset;
                self.chunk = 0;
            },
            Stage::Reset => {
                self.stage = Stage::Generate;
            },
            Stage::Generate => {
                self.stage = Stage::Extract;
            },
            Stage::Extract => {
                self.stage = Stage::Render;
            },
            Stage::Render => {
                if self.chunk + 1 < self.chunk_count {
                    self.chunk = self.chunk + 1;
                    self.stage = Stage::Reset;
                } else {
                    self.chunk = 0;
                    self.stage = Stage::Presented;
                }
            },
            Stage::Presented => {
                self.stage = Stage::Idle;
            },
        }
    }
}

/// One chunk's results, handed to the renderer.
pub struct ChunkOutput {
    pub field: DensityField,
    pub vertices: Vec<MeshVertex>,
    pub args: IndirectDrawArgs,
}

/// Run a whole frame: every chunk's cycle, in ascending chunk order. The
/// renderer draws each entry with its argument block (clearing the target on
/// the first chunk, accumulating on the rest).
pub fn run_frame(dim: usize, t: i64, iso: i64) -> (outs: Vec<ChunkOutput>)
    requires
        1 <= dim <= MAX_DIM,
        -TIME_LIMIT <= t <= TIME_LIMIT,
        -DENSITY_LIMIT <= iso <= DENSITY_LIMIT,
    ensures
        outs@.len() == CHUNK_COUNT,
        forall|i: int|
            0 <= i < CHUNK_COUNT ==> #[trigger] chunk_run_post(
                outs@[i].field,
                outs@[i].vertices@,
                outs@[i].args,
                i,
                dim as int,
                t as int,
                iso as int,
            ),
{
    let mut outs: Vec<ChunkOutput> = Vec::new();
    let mut id: usize = 0;
    while id < CHUNK_COUNT
        invariant
            1 <= dim <= MAX_DIM,
            -TIME_LIMIT <= t <= TIME_LIMIT,
            -DENSITY_LIMIT <= iso <= DENSITY_LIMIT,
            id <= CHUNK_COUNT,
            outs@.len() == id,
            forall|i: int|
                0 <= i < id ==> #[trigger] chunk_run_post(
                    outs@[i].field,
                    outs@[i].vertices@,
                    outs@[i].args,
                    i,
                    dim as int,
                    t as int,
                    iso as int,
                ),
        decreases CHUNK_COUNT - id,
    {
        let mut vertices: Vec<MeshVertex> = Vec::new();
        let mut args = IndirectDrawArgs::new();
        let field = run_chunk(id, dim, t, iso, &mut vertices, &mut args);
        outs.push(ChunkOutput { field, vertices, args });
        id = id + 1;
    }
    outs
}

} // verus!
