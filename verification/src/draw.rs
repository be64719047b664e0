//! The indirect draw coordinator: a four-field argument block that
//! parameterizes a draw call whose vertex count is decided by the extractor,
//! not by the controlling process.
//!
//! `vertex_count` is the only field the pipeline ever mutates: it is reset to
//! zero before each generation pass and advanced exclusively by the
//! extractor's reservations, so it is monotonically non-decreasing during a
//! pass. The other three fields keep their reset defaults. The renderer
//! consumes the block directly as draw parameters; no path reads the count
//! back into the controlling process.

use vstd::prelude::*;

verus! {

/// Draw arguments in the layout of an indirect draw call:
/// `{vertex_count, instance_count, first_vertex, first_instance}`.
pub struct IndirectDrawArgs {
    pub vertex_count: u32,
    pub instance_count: u32,
    pub first_vertex: u32,
    pub first_instance: u32,
}

impl IndirectDrawArgs {
    /// The three fields the pipeline never advances hold their defaults: one
    /// instance, drawn from the start of the vertex buffer.
    pub open spec fn defaults_ok(self) -> bool {
        self.instance_count == 1 && self.first_vertex == 0 && self.first_instance == 0
    }

    /// The state established by `reset`: no vertices reserved yet.
    pub open spec fn is_reset(self) -> bool {
        self.vertex_count == 0 && self.defaults_ok()
    }

    /// A fresh argument block, already in the reset state.
    pub fn new() -> (a: IndirectDrawArgs)
        ensures
            a.is_reset(),
    {
        IndirectDrawArgs { vertex_count: 0, instance_count: 1, first_vertex: 0, first_instance: 0 }
    }

    /// Reset all fields to their defaults; invoked before each generation
    /// pass so that no pass observes a previous pass's count.
    pub fn reset(&mut self)
        ensures
            final(self).is_reset(),
    {
        self.vertex_count = 0;
        self.instance_count = 1;
        self.first_vertex = 0;
        self.first_instance = 0;
    }

    /// Reserve `n` vertices: advance the counter by `n` and hand back the
    /// pre-increment value as the reserved base offset. This models the
    /// extractor's atomic fetch-and-add; the returned base is the caller's
    /// unique, non-overlapping write offset.
    pub fn reserve(&mut self, n: u32) -> (base: u32)
        requires
            old(self).vertex_count + n <= u32::MAX,
        ensures
            base == old(self).vertex_count,
            final(self).vertex_count == old(self).vertex_count + n,
            final(self).instance_count == old(self).instance_count,
            final(self).first_vertex == old(self).first_vertex,
            final(self).first_instance == old(self).first_instance,
    {
        let base = self.vertex_count;
        self.vertex_count = self.vertex_count + n;
        base
    }

    /// The block as the four words uploaded to the draw-argument buffer.
    pub fn as_words(&self) -> (w: (u32, u32, u32, u32))
        ensures
            w.0 == self.vertex_count,
            w.1 == self.instance_count,
            w.2 == self.first_vertex,
            w.3 == self.first_instance,
    {
        (self.vertex_count, self.instance_count, self.first_vertex, self.first_instance)
    }
}

} // verus!
