//! Surfaces: the sub-meshes a mesh is made of.
//!
//! A surface holds vertex data and, when it is skinned, an ordered list of
//! bone handles into the scene graph. Each vertex carries a parallel pair of
//! lists: indices into the surface's own bone list, and the blend weight of
//! each of those bones.

use std::sync::Arc;
use vstd::prelude::*;

use crate::math::{scaled, summed, transformed, zero_vec};
use crate::Handle;
use rg3d_core::color::Color;
use rg3d_core::math::mat4::Mat4;
use rg3d_core::math::vec3::Vec3;

verus! {

/// A skinning weight. The scalar factor is a floating-point quantity that the
/// verified code never inspects; it rides in the `x` component of a math
/// vector and is consumed only by the scaling primitive.
pub struct Weight {
    pub factor: Vec3,
}

/// One vertex of a surface: a local-space position and the surface-local
/// bone influences that deform it.
pub struct Vertex {
    /// Position in the mesh's local coordinate frame.
    pub position: Vec3,
    /// Indices into the owning surface's bone list.
    pub bone_indices: Vec<u8>,
    /// Blend weight of each influencing bone, parallel to `bone_indices`.
    pub bone_weights: Vec<Weight>,
}

impl Vertex {
    /// How many (index, weight) influence pairs the vertex has: pairs beyond
    /// the shorter of the two lists are ignored.
    pub open spec fn influence_count(self) -> int {
        if self.bone_indices@.len() <= self.bone_weights@.len() {
            self.bone_indices@.len() as int
        } else {
            self.bone_weights@.len() as int
        }
    }

    /// Every influence index points into a bone list of length `n`.
    pub open spec fn indices_in_bounds(self, n: int) -> bool {
        forall|k: int|
            0 <= k < self.influence_count() ==> (#[trigger] self.bone_indices@[k]) < n
    }
}

/// The linear-blend position of vertex `v` under the skinning matrices
/// `mats`, accumulated over its first `k` influence pairs: the running sum of
/// the vertex position carried through each influencing bone's skinning
/// matrix and scaled by that bone's weight.
pub open spec fn blend_prefix(mats: Seq<Mat4>, v: Vertex, k: int) -> Vec3
    decreases k,
{
    if k <= 0 {
        zero_vec(())
    } else {
        summed(
            blend_prefix(mats, v, k - 1),
            scaled(
                transformed(mats[v.bone_indices@[k - 1] as int], v.position),
                v.bone_weights@[k - 1].factor,
            ),
        )
    }
}

/// The linear-blend position of vertex `v` over all of its influence pairs.
/// A vertex with no influence pairs, or with every weight zero, blends to the
/// zero vector rather than to its local position.
pub open spec fn skinned_position(mats: Seq<Mat4>, v: Vertex) -> Vec3 {
    blend_prefix(mats, v, v.influence_count())
}

/// The vertex buffer of a surface. It is shared, reference-counted, by every
/// surface instanced from one resource. The engine guards such a buffer with
/// a lock because instances may rewrite it; here the shared buffer is
/// immutable while shared, so reads need no lock and the borrow rules stand
/// in for one.
pub struct SurfaceData {
    pub vertices: Vec<Vertex>,
}

impl SurfaceData {
    /// Wraps a vertex list as surface data.
    pub fn new(vertices: Vec<Vertex>) -> (r: SurfaceData)
        ensures
            r.vertices == vertices,
    {
        SurfaceData { vertices }
    }

    /// Read access to the vertices.
    pub fn vertices(&self) -> (r: &Vec<Vertex>)
        ensures
            *r == self.vertices,
    {
        &self.vertices
    }
}

/// A sub-mesh sharing one material: a shared handle to vertex data, an
/// optional bone list, and a color.
pub struct Surface {
    pub data: Arc<SurfaceData>,
    pub bones: Vec<Handle>,
    pub color: Color,
}

impl Surface {
    /// Makes a surface over the given vertex data and bone list, with the
    /// default color. An empty bone list means the surface is rigid.
    pub fn new(data: Arc<SurfaceData>, bones: Vec<Handle>) -> (r: Surface)
        ensures
            r.data == data,
            r.bones == bones,
            r.color == crate::math::default_color(()),
    {
        Surface { data, bones, color: crate::math::color_white() }
    }

    /// Read access to the shared vertex data.
    pub fn data(&self) -> (r: &SurfaceData)
        ensures
            *r == *self.data,
    {
        &*self.data
    }

    /// The surface's bone handles, in their stored order.
    pub fn bones(&self) -> (r: &Vec<Handle>)
        ensures
            *r == self.bones,
    {
        &self.bones
    }

    /// The surface's current color.
    pub fn color(&self) -> (r: Color)
        ensures
            r == self.color,
    {
        self.color
    }

    /// Applies a color to the surface. Color never affects geometry.
    pub fn set_color(&mut self, color: Color)
        ensures
            final(self).color == color,
            final(self).data == old(self).data,
            final(self).bones == old(self).bones,
    {
        self.color = color;
    }

    /// Every vertex's influence indices point into this surface's bone list.
    pub open spec fn skin_indices_valid(self) -> bool {
        forall|i: int|
            0 <= i < self.data.vertices@.len() ==> (#[trigger] self.data.vertices@[i])
                .indices_in_bounds(self.bones@.len() as int)
    }
}

} // verus!
