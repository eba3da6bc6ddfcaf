//! The scene graph the mesh lives in, reduced to what spatial queries read:
//! every node carries a world transform and the inverse bind-pose transform
//! captured when a skin was bound to it.

use vstd::prelude::*;

use crate::math::{identity_mat, mat4_identity, mat4_position, position_of};
use crate::mesh::Mesh;
use crate::Handle;
use rg3d_core::math::mat4::Mat4;
use rg3d_core::math::vec3::Vec3;

verus! {

/// The state every scene-graph node carries, whatever its kind.
pub struct Base {
    /// World transform of the node.
    pub global_transform: Mat4,
    /// Inverse of the node's world transform at bind time; fixed thereafter.
    pub inv_bind_pose_transform: Mat4,
}

impl Base {
    /// The node's world transform.
    pub fn global_transform(&self) -> (r: Mat4)
        ensures
            r == self.global_transform,
    {
        self.global_transform
    }

    /// The node's world-space position: the translation part of its world
    /// transform.
    pub fn global_position(&self) -> (r: Vec3)
        ensures
            r == position_of(self.global_transform),
    {
        mat4_position(&self.global_transform)
    }

    /// The node's inverse bind-pose transform.
    pub fn inv_bind_pose_transform(&self) -> (r: Mat4)
        ensures
            r == self.inv_bind_pose_transform,
    {
        self.inv_bind_pose_transform
    }
}

/// Declarative constructor for the base state of a node.
pub struct BaseBuilder {
    pub global_transform: Mat4,
    pub inv_bind_pose_transform: Mat4,
}

impl BaseBuilder {
    /// The base state this builder produces.
    pub open spec fn spec_build(self) -> Base {
        Base {
            global_transform: self.global_transform,
            inv_bind_pose_transform: self.inv_bind_pose_transform,
        }
    }

    /// Starts from identity transforms.
    pub fn new() -> (r: BaseBuilder)
        ensures
            r.global_transform == identity_mat(()),
            r.inv_bind_pose_transform == identity_mat(()),
    {
        BaseBuilder {
            global_transform: mat4_identity(),
            inv_bind_pose_transform: mat4_identity(),
        }
    }

    /// Sets the node's world transform.
    pub fn with_global_transform(self, m: Mat4) -> (r: BaseBuilder)
        ensures
            r.global_transform == m,
            r.inv_bind_pose_transform == self.inv_bind_pose_transform,
    {
        BaseBuilder { global_transform: m, ..self }
    }

    /// Sets the node's inverse bind-pose transform.
    pub fn with_inv_bind_pose_transform(self, m: Mat4) -> (r: BaseBuilder)
        ensures
            r.global_transform == self.global_transform,
            r.inv_bind_pose_transform == m,
    {
        BaseBuilder { inv_bind_pose_transform: m, ..self }
    }

    /// Produces the base state.
    pub fn build(self) -> (r: Base)
        ensures
            r == self.spec_build(),
    {
        Base {
            global_transform: self.global_transform,
            inv_bind_pose_transform: self.inv_bind_pose_transform,
        }
    }
}

/// A scene-graph node: the closed set of node kinds this crate knows. Bones
/// are plain `Base` nodes; a mesh is one kind among them.
pub enum Node {
    /// A node with no payload beyond its base state, such as a bone.
    Base(Base),
    /// A mesh node.
    Mesh(Mesh),
}

impl Node {
    /// The base state of the node, whatever its kind.
    pub open spec fn spec_base(self) -> Base {
        match self {
            Node::Base(base) => base,
            Node::Mesh(mesh) => mesh.base,
        }
    }

    /// Read access to the node's base state.
    pub fn base(&self) -> (r: &Base)
        ensures
            *r == self.spec_base(),
    {
        match self {
            Node::Base(base) => base,
            Node::Mesh(mesh) => &mesh.base,
        }
    }
}

/// The scene graph: nodes addressed by handle. A handle is valid when it
/// indexes into the node list; looking a valid handle up is total and O(1).
pub struct Graph {
    pub nodes: Vec<Node>,
}

impl Graph {
    /// Whether `h` refers to a node of this graph.
    pub open spec fn valid_handle(self, h: Handle) -> bool {
        h.index < self.nodes@.len()
    }

    /// The node a valid handle refers to.
    pub open spec fn spec_node(self, h: Handle) -> Node {
        self.nodes@[h.index as int]
    }

    /// An empty scene graph.
    pub fn new() -> (r: Graph)
        ensures
            r.nodes@.len() == 0,
    {
        Graph { nodes: Vec::new() }
    }

    /// Adds a node and hands back the handle that refers to it.
    pub fn add_node(&mut self, node: Node) -> (h: Handle)
        ensures
            final(self).nodes@ == old(self).nodes@.push(node),
            h.index == old(self).nodes@.len(),
            final(self).valid_handle(h),
            final(self).spec_node(h) == node,
    {
        let h = Handle { index: self.nodes.len() };
        self.nodes.push(node);
        h
    }

    /// Looks a node up by handle. A dangling handle is a contract violation
    /// of the caller, not handled here.
    pub fn node(&self, h: Handle) -> (r: &Node)
        requires
            self.valid_handle(h),
        ensures
            *r == self.spec_node(h),
    {
        &self.nodes[h.index]
    }
}

} // verus!
