//! The mesh node: an ordered sequence of surfaces together with a lazily
//! cached local-frame bounding box, bounding boxes in three coordinate
//! frames, and a two-tier frustum visibility test.

use vstd::prelude::*;

use crate::math::{
    aabb_add_point, aabb_default, box_folded, box_hits_frustum, empty_box, frustum_box_transform_test,
    frustum_point_test, lemma_box_folded_push, mat4_compose, mat4_transform_point, mat_composed,
    point_in_frustum, position_of, scaled, summed, transformed, vec3_add, vec3_scale, vec3_zero,
};
use crate::node::{Base, BaseBuilder, Graph, Node};
use crate::surface::{blend_prefix, skinned_position, Surface, Vertex};
use crate::Handle;
use rg3d_core::color::Color;
use rg3d_core::math::aabb::AxisAlignedBoundingBox;
use rg3d_core::math::frustum::Frustum;
use rg3d_core::math::mat4::Mat4;
use rg3d_core::math::vec3::Vec3;

verus! {

/// The local-space positions of the vertices of `d`, in vertex order.
pub open spec fn data_points(vs: Seq<Vertex>) -> Seq<Vec3> {
    vs.map(|i: int, v: Vertex| v.position)
}

/// The positions of the vertices of `d` carried through `m`, in vertex order.
pub open spec fn data_world_points(m: Mat4, vs: Seq<Vertex>) -> Seq<Vec3> {
    vs.map(|i: int, v: Vertex| transformed(m, v.position))
}

/// The linear-blend position of each vertex of `d` under the skinning
/// matrices `mats`, in vertex order.
pub open spec fn data_skinned_points(mats: Seq<Mat4>, vs: Seq<Vertex>) -> Seq<Vec3> {
    vs.map(|i: int, v: Vertex| skinned_position(mats, v))
}

/// The skinning matrix of each bone in `bones`: the bone's world transform
/// composed with its inverse bind-pose transform.
pub open spec fn bone_matrices(g: Graph, bones: Seq<Handle>) -> Seq<Mat4> {
    Seq::new(
        bones.len(),
        |i: int|
            mat_composed(
                g.spec_node(bones[i]).spec_base().global_transform,
                g.spec_node(bones[i]).spec_base().inv_bind_pose_transform,
            ),
    )
}

/// The local-space positions of every vertex of every surface, in surface
/// order then vertex order.
pub open spec fn local_points(ss: Seq<Surface>) -> Seq<Vec3>
    decreases ss.len(),
{
    if ss.len() == 0 {
        Seq::empty()
    } else {
        data_points(ss[0].data.vertices@) + local_points(ss.drop_first())
    }
}

/// The world-space positions of every vertex of every surface under the mesh
/// world transform `m`, ignoring bones.
pub open spec fn world_points(m: Mat4, ss: Seq<Surface>) -> Seq<Vec3>
    decreases ss.len(),
{
    if ss.len() == 0 {
        Seq::empty()
    } else {
        data_world_points(m, ss[0].data.vertices@) + world_points(m, ss.drop_first())
    }
}

/// What one surface contributes to the skin-aware world box: its vertices
/// under the mesh world transform when it is rigid, their linear-blend
/// positions under its bones' skinning matrices when it is skinned. In the
/// skinned case the mesh's own world transform is not applied: bone world
/// transforms already encode the final placement.
pub open spec fn surface_full_points(g: Graph, m: Mat4, s: Surface) -> Seq<Vec3> {
    if s.bones@.len() == 0 {
        data_world_points(m, s.data.vertices@)
    } else {
        data_skinned_points(bone_matrices(g, s.bones@), s.data.vertices@)
    }
}

/// The skin-aware world-space positions of every vertex of every surface.
pub open spec fn full_points(g: Graph, m: Mat4, ss: Seq<Surface>) -> Seq<Vec3>
    decreases ss.len(),
{
    if ss.len() == 0 {
        Seq::empty()
    } else {
        surface_full_points(g, m, ss[0]) + full_points(g, m, ss.drop_first())
    }
}

/// The local-frame bounding box of a surface sequence: every raw vertex
/// position inserted into the empty box, in order.
pub open spec fn local_box_of(ss: Seq<Surface>) -> AxisAlignedBoundingBox {
    box_folded(empty_box(()), local_points(ss))
}

/// The world-frame bounding box of a surface sequence under the mesh world
/// transform `m`, ignoring bones.
pub open spec fn world_box_of(m: Mat4, ss: Seq<Surface>) -> AxisAlignedBoundingBox {
    box_folded(empty_box(()), world_points(m, ss))
}

/// The skin-aware world-frame bounding box of a surface sequence.
pub open spec fn full_box_of(g: Graph, m: Mat4, ss: Seq<Surface>) -> AxisAlignedBoundingBox {
    box_folded(empty_box(()), full_points(g, m, ss))
}

/// Appending a surface appends its local points.
pub proof fn lemma_local_points_push(p: Seq<Surface>, x: Surface)
    ensures
        local_points(p.push(x)) == local_points(p) + data_points(x.data.vertices@),
    decreases p.len(),
{
    if p.len() == 0 {
        assert(p.push(x).drop_first() =~= Seq::<Surface>::empty());
        assert(local_points(Seq::<Surface>::empty()) =~= Seq::<Vec3>::empty());
        assert(local_points(p.push(x)) == data_points(p.push(x)[0].data.vertices@) + local_points(
            p.push(x).drop_first(),
        ));
        assert(local_points(p.push(x)) =~= data_points(x.data.vertices@));
        assert(local_points(p) + data_points(x.data.vertices@) =~= data_points(x.data.vertices@));
    } else {
        assert(p.push(x).drop_first() =~= p.drop_first().push(x));
        lemma_local_points_push(p.drop_first(), x);
        assert(data_points(p[0].data.vertices@) + (local_points(p.drop_first()) + data_points(x.data.vertices@)) =~= (
        data_points(p[0].data.vertices@) + local_points(p.drop_first())) + data_points(x.data.vertices@));
    }
}

/// Appending a surface appends its world points.
pub proof fn lemma_world_points_push(m: Mat4, p: Seq<Surface>, x: Surface)
    ensures
        world_points(m, p.push(x)) == world_points(m, p) + data_world_points(m, x.data.vertices@),
    decreases p.len(),
{
    if p.len() == 0 {
        assert(p.push(x).drop_first() =~= Seq::<Surface>::empty());
        assert(world_points(m, Seq::<Surface>::empty()) =~= Seq::<Vec3>::empty());
        assert(world_points(m, p.push(x)) == data_world_points(m, p.push(x)[0].data.vertices@)
            + world_points(m, p.push(x).drop_first()));
        assert(world_points(m, p.push(x)) =~= data_world_points(m, x.data.vertices@));
        assert(world_points(m, p) + data_world_points(m, x.data.vertices@) =~= data_world_points(m, x.data.vertices@));
    } else {
        assert(p.push(x).drop_first() =~= p.drop_first().push(x));
        lemma_world_points_push(m, p.drop_first(), x);
        assert(data_world_points(m, p[0].data.vertices@) + (world_points(m, p.drop_first())
            + data_world_points(m, x.data.vertices@)) =~= (data_world_points(m, p[0].data.vertices@) + world_points(
            m,
            p.drop_first(),
        )) + data_world_points(m, x.data.vertices@));
    }
}

/// Appending a surface appends its skin-aware points.
pub proof fn lemma_full_points_push(g: Graph, m: Mat4, p: Seq<Surface>, x: Surface)
    ensures
        full_points(g, m, p.push(x)) == full_points(g, m, p) + surface_full_points(g, m, x),
    decreases p.len(),
{
    if p.len() == 0 {
        assert(p.push(x).drop_first() =~= Seq::<Surface>::empty());
        assert(full_points(g, m, Seq::<Surface>::empty()) =~= Seq::<Vec3>::empty());
        assert(full_points(g, m, p.push(x)) == surface_full_points(g, m, p.push(x)[0])
            + full_points(g, m, p.push(x).drop_first()));
        assert(full_points(g, m, p.push(x)) =~= surface_full_points(g, m, x));
        assert(full_points(g, m, p) + surface_full_points(g, m, x) =~= surface_full_points(
            g,
            m,
            x,
        ));
    } else {
        assert(p.push(x).drop_first() =~= p.drop_first().push(x));
        lemma_full_points_push(g, m, p.drop_first(), x);
        assert(surface_full_points(g, m, p[0]) + (full_points(g, m, p.drop_first())
            + surface_full_points(g, m, x)) =~= (surface_full_points(g, m, p[0]) + full_points(
            g,
            m,
            p.drop_first(),
        )) + surface_full_points(g, m, x));
    }
}

/// The local points of a surface sequence depend only on each surface's
/// vertex data: two sequences that agree on data agree on points, whatever
/// their bone lists or colors.
pub proof fn lemma_local_points_same_data(a: Seq<Surface>, b: Seq<Surface>)
    requires
        a.len() == b.len(),
        forall|i: int| 0 <= i < a.len() ==> (#[trigger] a[i]).data == b[i].data,
    ensures
        local_points(a) == local_points(b),
    decreases a.len(),
{
    if a.len() != 0 {
        assert(forall|i: int|
            0 <= i < a.drop_first().len() ==> (#[trigger] a.drop_first()[i]).data
                == b.drop_first()[i].data);
        lemma_local_points_same_data(a.drop_first(), b.drop_first());
        assert(data_points(a[0].data.vertices@) == data_points(b[0].data.vertices@));
    }
}

/// See the crate root: a renderable entity made of surfaces, with a lazily
/// cached local-frame bounding box.
///
/// The cache is coherent (`wf`) whenever the dirty flag is clear: the cached
/// box then equals the box recomputed from the current surfaces. Every method
/// preserves coherence; handing out mutable access to the surfaces
/// conservatively marks the cache dirty first.
pub struct Mesh {
    /// The node state shared by every node kind.
    pub base: Base,
    /// The surfaces, in render/material grouping order.
    pub surfaces: Vec<Surface>,
    /// The last-computed local-frame bounding box.
    pub bounding_box: AxisAlignedBoundingBox,
    /// True when `bounding_box` must be recomputed before its next read.
    pub bounding_box_dirty: bool,
}

impl Mesh {
    /// Cache coherence: a clean dirty flag means the cached box equals the
    /// box the current surfaces fold to.
    pub open spec fn wf(self) -> bool {
        !self.bounding_box_dirty ==> self.bounding_box == local_box_of(self.surfaces@)
    }

    /// Every bone handle of every surface refers to a node of `g`.
    pub open spec fn bones_valid(self, g: Graph) -> bool {
        forall|i: int|
            0 <= i < self.surfaces@.len() ==> surface_bones_valid(#[trigger] self.surfaces@[i], g)
    }

    /// Every vertex's influence indices point into its surface's bone list.
    pub open spec fn skin_indices_valid(self) -> bool {
        forall|i: int|
            0 <= i < self.surfaces@.len() ==> (#[trigger] self.surfaces@[i]).skin_indices_valid()
    }

    /// Returns shared access to the surfaces.
    pub fn surfaces(&self) -> (r: &Vec<Surface>)
        ensures
            *r == self.surfaces,
    {
        &self.surfaces
    }

    /// Returns mutable access to the surfaces. The borrow may change
    /// geometry, so the cached bounding box is conservatively marked dirty.
    pub fn surfaces_mut(&mut self) -> (r: &mut Vec<Surface>)
        ensures
            *r == old(self).surfaces,
            final(self).surfaces == *final(r),
            final(self).base == old(self).base,
            final(self).bounding_box == old(self).bounding_box,
            final(self).bounding_box_dirty == true,
            final(self).wf(),
    {
        self.bounding_box_dirty = true;
        &mut self.surfaces
    }

    /// Removes all surfaces from the mesh and marks the cache dirty.
    pub fn clear_surfaces(&mut self)
        ensures
            final(self).surfaces@ == Seq::<Surface>::empty(),
            final(self).base == old(self).base,
            final(self).bounding_box == old(self).bounding_box,
            final(self).bounding_box_dirty == true,
            final(self).wf(),
    {
        self.surfaces.clear();
        self.bounding_box_dirty = true;
    }

    /// Adds a surface to the end of the sequence and marks the cache dirty.
    /// Can be used to procedurally generate meshes.
    pub fn add_surface(&mut self, surface: Surface)
        ensures
            final(self).surfaces@ == old(self).surfaces@.push(surface),
            final(self).base == old(self).base,
            final(self).bounding_box == old(self).bounding_box,
            final(self).bounding_box_dirty == true,
            final(self).wf(),
    {
        self.surfaces.push(surface);
        self.bounding_box_dirty = true;
    }

    /// Performs lazy bounding-box evaluation, in the mesh's *local* frame:
    /// the box encloses every raw vertex position of every surface, ignoring
    /// bone influence entirely. A skinned mesh whose bones move far from the
    /// bind pose will therefore report a stale local box; skin-aware callers
    /// must use `full_world_bounding_box`. When the cache is clean the call
    /// returns the cached value untouched, bit for bit, without re-reading
    /// any vertex data.
    pub fn bounding_box(&mut self) -> (r: AxisAlignedBoundingBox)
        requires
            old(self).wf(),
        ensures
            final(self).base == old(self).base,
            final(self).surfaces == old(self).surfaces,
            final(self).bounding_box_dirty == false,
            final(self).bounding_box == r,
            final(self).wf(),
            r == local_box_of(old(self).surfaces@),
            !old(self).bounding_box_dirty ==> r == old(self).bounding_box,
            old(self).surfaces@.len() == 0 ==> r == empty_box(()),
    {
        if self.bounding_box_dirty {
            let ghost ss = self.surfaces@;
            let mut bb = aabb_default();
            let n = self.surfaces.len();
            let mut i: usize = 0;
            while i < n
                invariant
                    i <= n,
                    n == ss.len(),
                    self.surfaces@ == ss,
                    bb == box_folded(empty_box(()), local_points(ss.take(i as int))),
                decreases n - i,
            {
                let ghost sofar = local_points(ss.take(i as int));
                let data = self.surfaces[i].data();
                let verts = data.vertices();
                let ghost dp = data_points(ss[i as int].data.vertices@);
                let m = verts.len();
                let mut j: usize = 0;
                while j < m
                    invariant
                        j <= m,
                        i < n,
                        n == ss.len(),
                        m == dp.len(),
                        verts@ == ss[i as int].data.vertices@,
                        dp == data_points(ss[i as int].data.vertices@),
                        sofar == local_points(ss.take(i as int)),
                        bb == box_folded(empty_box(()), sofar + dp.take(j as int)),
                    decreases m - j,
                {
                    let p = verts[j].position;
                    proof {
                        assert(dp[j as int] == p);
                        lemma_box_folded_push(empty_box(()), sofar + dp.take(j as int), p);
                        assert((sofar + dp.take(j as int)).push(p) =~= sofar + dp.take(
                            j as int + 1,
                        ));
                    }
                    aabb_add_point(&mut bb, p);
                    j += 1;
                }
                proof {
                    assert(dp.take(m as int) =~= dp);
                    assert(ss.take(i as int + 1) =~= ss.take(i as int).push(ss[i as int]));
                    lemma_local_points_push(ss.take(i as int), ss[i as int]);
                }
                i += 1;
            }
            proof {
                assert(ss.take(n as int) =~= ss);
            }
            self.bounding_box = bb;
            self.bounding_box_dirty = false;
        }
        proof {
            if old(self).surfaces@.len() == 0 {
                assert(local_points(old(self).surfaces@) =~= Seq::<Vec3>::empty());
            }
        }
        self.bounding_box
    }

    /// Calculates the bounding box in *world* coordinates, ignoring bones:
    /// every vertex position carried through the mesh's world transform.
    /// Recomputed from scratch on every call — expensive, and not intended
    /// for per-frame use.
    pub fn world_bounding_box(&self) -> (r: AxisAlignedBoundingBox)
        ensures
            r == world_box_of(self.base.global_transform, self.surfaces@),
            self.surfaces@.len() == 0 ==> r == empty_box(()),
    {
        let ghost ss = self.surfaces@;
        let gt = self.base.global_transform;
        let mut bb = aabb_default();
        let n = self.surfaces.len();
        let mut i: usize = 0;
        while i < n
            invariant
                i <= n,
                n == ss.len(),
                self.surfaces@ == ss,
                gt == self.base.global_transform,
                bb == box_folded(empty_box(()), world_points(gt, ss.take(i as int))),
            decreases n - i,
        {
            let ghost sofar = world_points(gt, ss.take(i as int));
            let data = self.surfaces[i].data();
            let verts = data.vertices();
            let ghost dp = data_world_points(gt, ss[i as int].data.vertices@);
            let m = verts.len();
            let mut j: usize = 0;
            while j < m
                invariant
                    j <= m,
                    i < n,
                    n == ss.len(),
                    m == dp.len(),
                    verts@ == ss[i as int].data.vertices@,
                    dp == data_world_points(gt, ss[i as int].data.vertices@),
                    sofar == world_points(gt, ss.take(i as int)),
                    bb == box_folded(empty_box(()), sofar + dp.take(j as int)),
                decreases m - j,
            {
                let p = mat4_transform_point(&gt, verts[j].position);
                proof {
                    assert(dp[j as int] == p);
                    lemma_box_folded_push(empty_box(()), sofar + dp.take(j as int), p);
                    assert((sofar + dp.take(j as int)).push(p) =~= sofar + dp.take(j as int + 1));
                }
                aabb_add_point(&mut bb, p);
                j += 1;
            }
            proof {
                assert(dp.take(m as int) =~= dp);
                assert(ss.take(i as int + 1) =~= ss.take(i as int).push(ss[i as int]));
                lemma_world_points_push(gt, ss.take(i as int), ss[i as int]);
            }
            i += 1;
        }
        proof {
            assert(ss.take(n as int) =~= ss);
            if ss.len() == 0 {
                assert(world_points(gt, ss) =~= Seq::<Vec3>::empty());
            }
        }
        bb
    }

    /// Calculates the bounding box in *world* coordinates, including the
    /// influence of bones. A rigid surface (no bones) contributes exactly
    /// what `world_bounding_box` would; a skinned surface contributes each
    /// vertex's linear-blend position under its bones' skinning matrices,
    /// each matrix precomputed once per surface as the bone's world transform
    /// composed with its inverse bind pose. Expensive; not intended for
    /// per-frame use.
    pub fn full_world_bounding_box(&self, graph: &Graph) -> (r: AxisAlignedBoundingBox)
        requires
            self.bones_valid(*graph),
            self.skin_indices_valid(),
        ensures
            r == full_box_of(*graph, self.base.global_transform, self.surfaces@),
            self.surfaces@.len() == 0 ==> r == empty_box(()),
    {
        let ghost ss = self.surfaces@;
        let ghost g = *graph;
        let gt = self.base.global_transform;
        let mut bb = aabb_default();
        let n = self.surfaces.len();
        let mut i: usize = 0;
        while i < n
            invariant
                i <= n,
                n == ss.len(),
                self.surfaces@ == ss,
                g == *graph,
                gt == self.base.global_transform,
                self.bones_valid(g),
                self.skin_indices_valid(),
                bb == box_folded(empty_box(()), full_points(g, gt, ss.take(i as int))),
            decreases n - i,
        {
            let ghost sofar = full_points(g, gt, ss.take(i as int));
            let surface = &self.surfaces[i];
            let ghost dp = surface_full_points(g, gt, ss[i as int]);
            let data = surface.data();
            let verts = data.vertices();
            let m = verts.len();
            if surface.bones().len() == 0 {
                let mut j: usize = 0;
                while j < m
                    invariant
                        j <= m,
                        m == dp.len(),
                        verts@ == ss[i as int].data.vertices@,
                        ss[i as int].bones@.len() == 0,
                        dp == surface_full_points(g, gt, ss[i as int]),
                        dp == data_world_points(gt, ss[i as int].data.vertices@),
                        sofar == full_points(g, gt, ss.take(i as int)),
                        bb == box_folded(empty_box(()), sofar + dp.take(j as int)),
                    decreases m - j,
                {
                    let p = mat4_transform_point(&gt, verts[j].position);
                    proof {
                        assert(dp[j as int] == p);
                        lemma_box_folded_push(empty_box(()), sofar + dp.take(j as int), p);
                        assert((sofar + dp.take(j as int)).push(p) =~= sofar + dp.take(
                            j as int + 1,
                        ));
                    }
                    aabb_add_point(&mut bb, p);
                    j += 1;
                }
            } else {
                // A skinned surface: its actual bounds are defined only by
                // bone influence. Precompute the per-bone skinning matrices
                // once, so the compose cost is paid per bone, not per vertex.
                proof {
                    assert(surface_bones_valid(ss[i as int], g));
                    assert(ss[i as int].skin_indices_valid());
                }
                let bones = surface.bones();
                let nb = bones.len();
                let ghost bm = bone_matrices(g, ss[i as int].bones@);
                let mut mats: Vec<Mat4> = Vec::new();
                let mut k: usize = 0;
                while k < nb
                    invariant
                        k <= nb,
                        nb == ss[i as int].bones@.len(),
                        bones@ == ss[i as int].bones@,
                        g == *graph,
                        surface_bones_valid(ss[i as int], g),
                        bm == bone_matrices(g, ss[i as int].bones@),
                        mats@ == bm.take(k as int),
                    decreases nb - k,
                {
                    let node = graph.node(bones[k]);
                    let base = node.base();
                    let composed = mat4_compose(
                        base.global_transform(),
                        base.inv_bind_pose_transform(),
                    );
                    proof {
                        assert(bm[k as int] == composed);
                        assert(bm.take(k as int + 1) =~= bm.take(k as int).push(composed));
                    }
                    mats.push(composed);
                    k += 1;
                }
                proof {
                    assert(bm.take(nb as int) =~= bm);
                }
                let mut j: usize = 0;
                while j < m
                    invariant
                        j <= m,
                        m == dp.len(),
                        verts@ == ss[i as int].data.vertices@,
                        ss[i as int].bones@.len() != 0,
                        ss[i as int].skin_indices_valid(),
                        mats@ == bm,
                        bm == bone_matrices(g, ss[i as int].bones@),
                        dp == surface_full_points(g, gt, ss[i as int]),
                        dp == data_skinned_points(bm, ss[i as int].data.vertices@),
                        sofar == full_points(g, gt, ss.take(i as int)),
                        bb == box_folded(empty_box(()), sofar + dp.take(j as int)),
                    decreases m - j,
                {
                    let vert = &verts[j];
                    let ni = vert.bone_indices.len();
                    let nw = vert.bone_weights.len();
                    let ic = if ni <= nw {
                        ni
                    } else {
                        nw
                    };
                    proof {
                        assert(ss[i as int].data.vertices@[j as int].indices_in_bounds(
                            ss[i as int].bones@.len() as int,
                        ));
                        assert(ic as int == vert.influence_count());
                    }
                    let mut acc = vec3_zero();
                    let mut k: usize = 0;
                    while k < ic
                        invariant
                            k <= ic,
                            ic as int == vert.influence_count(),
                            ic <= vert.bone_indices@.len(),
                            ic <= vert.bone_weights@.len(),
                            vert == verts@[j as int],
                            j < m,
                            verts@ == ss[i as int].data.vertices@,
                            vert.indices_in_bounds(mats@.len() as int),
                            mats@ == bm,
                            acc == blend_prefix(bm, *vert, k as int),
                        decreases ic - k,
                    {
                        let bi = vert.bone_indices[k] as usize;
                        let t = mat4_transform_point(&mats[bi], vert.position);
                        let sc = vec3_scale(t, vert.bone_weights[k].factor);
                        acc = vec3_add(acc, sc);
                        proof {
                            assert(blend_prefix(bm, *vert, k as int + 1) == summed(
                                blend_prefix(bm, *vert, k as int),
                                scaled(
                                    transformed(bm[vert.bone_indices@[k as int] as int], vert.position),
                                    vert.bone_weights@[k as int].factor,
                                ),
                            ));
                        }
                        k += 1;
                    }
                    proof {
                        assert(acc == skinned_position(bm, verts@[j as int]));
                        assert(dp[j as int] == acc);
                        lemma_box_folded_push(empty_box(()), sofar + dp.take(j as int), acc);
                        assert((sofar + dp.take(j as int)).push(acc) =~= sofar + dp.take(
                            j as int + 1,
                        ));
                    }
                    aabb_add_point(&mut bb, acc);
                    j += 1;
                }
            }
            proof {
                assert(dp.take(m as int) =~= dp);
                assert(ss.take(i as int + 1) =~= ss.take(i as int).push(ss[i as int]));
                lemma_full_points_push(g, gt, ss.take(i as int), ss[i as int]);
            }
            i += 1;
        }
        proof {
            assert(ss.take(n as int) =~= ss);
            if ss.len() == 0 {
                assert(full_points(g, gt, ss) =~= Seq::<Vec3>::empty());
            }
        }
        bb
    }

    /// Performs the two-tier frustum visibility test. First the cheap test:
    /// the cached local bounding box, carried through the mesh's world
    /// transform, against the frustum — if it hits, the result is true with
    /// no bone examined. Otherwise, because that unskinned box is known to be
    /// wrong for skinned geometry whose bones left the bind-pose envelope,
    /// the fallback tests every bone's world-space position against the
    /// frustum. True exactly when the box hits or some bone position lies
    /// inside.
    pub fn is_intersect_frustum(&mut self, graph: &Graph, frustum: &Frustum) -> (r: bool)
        requires
            old(self).wf(),
            old(self).bones_valid(*graph),
        ensures
            final(self).base == old(self).base,
            final(self).surfaces == old(self).surfaces,
            final(self).bounding_box_dirty == false,
            final(self).bounding_box == local_box_of(old(self).surfaces@),
            final(self).wf(),
            r == (box_hits_frustum(
                *frustum,
                local_box_of(old(self).surfaces@),
                old(self).base.global_transform,
            ) || some_bone_in_frustum(*graph, *frustum, old(self).surfaces@)),
            box_hits_frustum(
                *frustum,
                local_box_of(old(self).surfaces@),
                old(self).base.global_transform,
            ) ==> r,
    {
        let ghost ss = self.surfaces@;
        let ghost g = *graph;
        let bb = self.bounding_box();
        if frustum_box_transform_test(frustum, &bb, &self.base.global_transform) {
            return true;
        }
        let n = self.surfaces.len();
        let mut i: usize = 0;
        while i < n
            invariant
                i <= n,
                n == ss.len(),
                self.surfaces == old(self).surfaces,
                self.surfaces@ == ss,
                ss == old(self).surfaces@,
                self.base == old(self).base,
                self.bounding_box_dirty == false,
                self.bounding_box == local_box_of(ss),
                g == *graph,
                old(self).bones_valid(g),
                forall|a: int, b: int|
                    0 <= a < i && 0 <= b < ss[a].bones@.len() ==> !point_in_frustum(
                        *frustum,
                        position_of(
                            g.spec_node(#[trigger] ss[a].bones@[b]).spec_base().global_transform,
                        ),
                    ),
            decreases n - i,
        {
            proof {
                assert(ss[i as int] == old(self).surfaces@[i as int]);
                assert(surface_bones_valid(old(self).surfaces@[i as int], g));
            }
            let bones = self.surfaces[i].bones();
            let nb = bones.len();
            let mut j: usize = 0;
            while j < nb
                invariant
                    j <= nb,
                    i < n,
                    n == ss.len(),
                    self.surfaces == old(self).surfaces,
                    self.surfaces@ == ss,
                    ss == old(self).surfaces@,
                    self.base == old(self).base,
                    self.bounding_box_dirty == false,
                    self.bounding_box == local_box_of(ss),
                    nb == ss[i as int].bones@.len(),
                    bones@ == ss[i as int].bones@,
                    g == *graph,
                    surface_bones_valid(ss[i as int], g),
                    forall|b: int|
                        0 <= b < j ==> !point_in_frustum(
                            *frustum,
                            position_of(
                                g.spec_node(
                                    #[trigger] ss[i as int].bones@[b],
                                ).spec_base().global_transform,
                            ),
                        ),
                decreases nb - j,
            {
                let node = graph.node(bones[j]);
                if frustum_point_test(frustum, node.base().global_position()) {
                    proof {
                        assert(some_bone_in_frustum(g, *frustum, ss));
                    }
                    return true;
                }
                j += 1;
            }
            i += 1;
        }
        proof {
            assert(!some_bone_in_frustum(g, *frustum, ss));
        }
        false
    }

    /// Applies a color to every surface. Color does not affect geometry, so
    /// the cache is neither recomputed nor invalidated.
    pub fn set_color(&mut self, color: Color)
        requires
            old(self).wf(),
        ensures
            final(self).surfaces@.len() == old(self).surfaces@.len(),
            forall|i: int|
                0 <= i < old(self).surfaces@.len() ==> (#[trigger] final(self).surfaces@[i]).color
                    == color,
            forall|i: int|
                0 <= i < old(self).surfaces@.len() ==> (#[trigger] final(self).surfaces@[i]).data
                    == old(self).surfaces@[i].data && final(self).surfaces@[i].bones == old(
                    self,
                ).surfaces@[i].bones,
            final(self).base == old(self).base,
            final(self).bounding_box == old(self).bounding_box,
            final(self).bounding_box_dirty == old(self).bounding_box_dirty,
            final(self).wf(),
    {
        let ghost orig = *self;
        let n = self.surfaces.len();
        let mut i: usize = 0;
        while i < n
            invariant
                i <= n,
                n == self.surfaces@.len(),
                n == orig.surfaces@.len(),
                forall|k: int|
                    0 <= k < i ==> (#[trigger] self.surfaces@[k]).color == color
                        && self.surfaces@[k].data == orig.surfaces@[k].data
                        && self.surfaces@[k].bones == orig.surfaces@[k].bones,
                forall|k: int| i <= k < n ==> #[trigger] self.surfaces@[k] == orig.surfaces@[k],
                self.base == orig.base,
                self.bounding_box == orig.bounding_box,
                self.bounding_box_dirty == orig.bounding_box_dirty,
            decreases n - i,
        {
            let s = &mut self.surfaces[i];
            s.set_color(color);
            i += 1;
        }
        proof {
            if !self.bounding_box_dirty {
                lemma_local_points_same_data(self.surfaces@, orig.surfaces@);
            }
        }
    }
}

impl Default for Mesh {
    /// An empty mesh at the identity transform, with a dirty cache.
    fn default() -> (r: Mesh)
        ensures
            r.surfaces@ == Seq::<Surface>::empty(),
            r.base.global_transform == crate::math::identity_mat(()),
            r.base.inv_bind_pose_transform == crate::math::identity_mat(()),
            r.bounding_box == empty_box(()),
            r.bounding_box_dirty == true,
            r.wf(),
    {
        Mesh {
            base: BaseBuilder::new().build(),
            surfaces: Vec::new(),
            bounding_box: aabb_default(),
            bounding_box_dirty: true,
        }
    }
}

/// Every bone handle of `s` refers to a node of `g`.
pub open spec fn surface_bones_valid(s: Surface, g: Graph) -> bool {
    forall|j: int| 0 <= j < s.bones@.len() ==> g.valid_handle(#[trigger] s.bones@[j])
}

/// Some bone of some surface has its world-space position inside the frustum.
pub open spec fn some_bone_in_frustum(g: Graph, f: Frustum, ss: Seq<Surface>) -> bool {
    exists|i: int, j: int|
        0 <= i < ss.len() && 0 <= j < ss[i].bones@.len() && point_in_frustum(
            f,
            position_of(g.spec_node(#[trigger] ss[i].bones@[j]).spec_base().global_transform),
        )
}

/// A mesh with no surfaces has the canonical empty box in every frame: the
/// local, world and skin-aware bounding boxes all fold no points at all.
pub proof fn lemma_empty_mesh_boxes(g: Graph, m: Mat4, ss: Seq<Surface>)
    requires
        ss.len() == 0,
    ensures
        local_box_of(ss) == empty_box(()),
        world_box_of(m, ss) == empty_box(()),
        full_box_of(g, m, ss) == empty_box(()),
{
    assert(local_points(ss) =~= Seq::<Vec3>::empty());
    assert(world_points(m, ss) =~= Seq::<Vec3>::empty());
    assert(full_points(g, m, ss) =~= Seq::<Vec3>::empty());
}

/// With no bones anywhere, the skin-aware points are exactly the world
/// points.
proof fn lemma_rigid_full_points_are_world_points(g: Graph, m: Mat4, ss: Seq<Surface>)
    requires
        forall|i: int| 0 <= i < ss.len() ==> (#[trigger] ss[i]).bones@.len() == 0,
    ensures
        full_points(g, m, ss) == world_points(m, ss),
    decreases ss.len(),
{
    if ss.len() != 0 {
        assert(forall|i: int|
            0 <= i < ss.drop_first().len() ==> (#[trigger] ss.drop_first()[i]).bones@.len() == 0);
        lemma_rigid_full_points_are_world_points(g, m, ss.drop_first());
        assert(surface_full_points(g, m, ss[0]) == data_world_points(m, ss[0].data.vertices@));
    }
}

/// A mesh with only rigid surfaces has the same skin-aware world box as its
/// plain world box: with no bones, `full_world_bounding_box` and
/// `world_bounding_box` fold exactly the same points.
pub proof fn lemma_rigid_full_box_is_world_box(g: Graph, m: Mat4, ss: Seq<Surface>)
    requires
        forall|i: int| 0 <= i < ss.len() ==> (#[trigger] ss[i]).bones@.len() == 0,
    ensures
        full_box_of(g, m, ss) == world_box_of(m, ss),
{
    lemma_rigid_full_points_are_world_points(g, m, ss);
}

/// Declarative constructor for a mesh node.
pub struct MeshBuilder {
    pub base_builder: BaseBuilder,
    pub surfaces: Vec<Surface>,
}

impl MeshBuilder {
    /// Creates a mesh builder with no surfaces.
    pub fn new(base_builder: BaseBuilder) -> (r: MeshBuilder)
        ensures
            r.base_builder == base_builder,
            r.surfaces@ == Seq::<Surface>::empty(),
    {
        MeshBuilder { base_builder, surfaces: Vec::new() }
    }

    /// Sets the surfaces the mesh will own.
    pub fn with_surfaces(self, surfaces: Vec<Surface>) -> (r: MeshBuilder)
        ensures
            r.base_builder == self.base_builder,
            r.surfaces == surfaces,
    {
        MeshBuilder { surfaces, ..self }
    }

    /// Builds the mesh: its cache starts dirty, so the first bounding-box
    /// read recomputes it from the surfaces.
    pub fn build(self) -> (r: Mesh)
        ensures
            r.base == self.base_builder.spec_build(),
            r.surfaces == self.surfaces,
            r.bounding_box == empty_box(()),
            r.bounding_box_dirty == true,
            r.wf(),
    {
        Mesh {
            base: self.base_builder.build(),
            surfaces: self.surfaces,
            bounding_box: aabb_default(),
            bounding_box_dirty: true,
        }
    }

    /// Builds the mesh and wraps it as a scene-graph node.
    pub fn build_node(self) -> (r: Node)
        ensures
            r == (Node::Mesh(
                Mesh {
                    base: self.base_builder.spec_build(),
                    surfaces: self.surfaces,
                    bounding_box: empty_box(()),
                    bounding_box_dirty: true,
                },
            )),
    {
        Node::Mesh(self.build())
    }
}

} // verus!
