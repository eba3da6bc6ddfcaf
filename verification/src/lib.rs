//! Mesh scene-graph nodes and their spatial queries.
//!
//! A mesh is a renderable entity made of independently textured surfaces. This
//! crate models the mesh, its surfaces and the scene graph they live in, and
//! verifies the machinery around them: the lazily cached local-frame bounding
//! box with its dirty flag, the uncached world-frame box, the skin-aware box
//! that blends per-bone transforms over per-vertex weights, and the two-tier
//! frustum visibility test.

pub mod math;
pub mod mesh;
pub mod node;
pub mod surface;

use vstd::prelude::*;

verus! {

/// A handle that identifies a node in the scene graph by its index.
#[derive(Clone, Copy, PartialEq, Eq, Structural, Debug)]
pub struct Handle {
    pub index: usize,
}

} // verus!
