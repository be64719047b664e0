//! Procedural volumetric iso-surface pipeline: a density field sampled on a
//! regular voxel grid, a marching-cubes extractor driven by static lookup
//! tables, an indirect-draw argument block filled by the extractor, and a
//! chunk orchestrator that repeats the pipeline across spatial partitions.
//!
//! All geometry is computed in fixed-point integer coordinates so that every
//! stage is deterministic and its behaviour can be stated exactly.

pub mod chunk;
pub mod cube;
pub mod density;
pub mod draw;
pub mod extract;
pub mod indexing;
pub mod tables;
pub mod tri_data;
