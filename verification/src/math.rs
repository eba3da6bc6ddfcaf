//! Bridge to the math primitives of `rg3d_core`.
//!
//! Vectors, matrices, bounding boxes and frusta are floating-point values that
//! the verifier treats as opaque. Each operation the mesh logic needs is given
//! a name at the specification level, and a thin trusted wrapper relates the
//! executable call to that name. Everything built on top of these names is
//! verified.

use vstd::prelude::*;

verus! {

/// Declares `rg3d_core`'s 3-component vector; its floating-point components
/// stay opaque to the verifier.
#[verifier::external_type_specification]
#[verifier::external_body]
pub struct ExVec3(rg3d_core::math::vec3::Vec3);

/// Declares `rg3d_core`'s 4x4 affine transform matrix, opaque to the
/// verifier.
#[verifier::external_type_specification]
#[verifier::external_body]
pub struct ExMat4(rg3d_core::math::mat4::Mat4);

/// Declares `rg3d_core`'s axis-aligned bounding box (a min and a max
/// corner), opaque to the verifier.
#[verifier::external_type_specification]
#[verifier::external_body]
pub struct ExAxisAlignedBoundingBox(rg3d_core::math::aabb::AxisAlignedBoundingBox);

/// Declares `rg3d_core`'s viewing frustum (six planes), opaque to the
/// verifier.
#[verifier::external_type_specification]
#[verifier::external_body]
pub struct ExFrustum(rg3d_core::math::frustum::Frustum);

/// Declares `rg3d_core`'s RGBA color, opaque to the verifier; the mesh only
/// stores and hands it around.
#[verifier::external_type_specification]
#[verifier::external_body]
pub struct ExColor(rg3d_core::color::Color);

/// The canonical empty bounding box, the identity for point insertion.
/// The unit parameter is a placeholder: a specification name takes at least
/// one argument.
pub uninterp spec fn empty_box(u: ()) -> rg3d_core::math::aabb::AxisAlignedBoundingBox;

/// The box `b` grown just enough to contain the point `p`.
pub uninterp spec fn grown(
    b: rg3d_core::math::aabb::AxisAlignedBoundingBox,
    p: rg3d_core::math::vec3::Vec3,
) -> rg3d_core::math::aabb::AxisAlignedBoundingBox;

/// The point `p` carried through the affine transform `m`.
pub uninterp spec fn transformed(
    m: rg3d_core::math::mat4::Mat4,
    p: rg3d_core::math::vec3::Vec3,
) -> rg3d_core::math::vec3::Vec3;

/// The composition `a ∘ b` of two affine transforms.
pub uninterp spec fn mat_composed(
    a: rg3d_core::math::mat4::Mat4,
    b: rg3d_core::math::mat4::Mat4,
) -> rg3d_core::math::mat4::Mat4;

/// The point `p` scaled by the factor held in the `x` component of `w`.
pub uninterp spec fn scaled(
    p: rg3d_core::math::vec3::Vec3,
    w: rg3d_core::math::vec3::Vec3,
) -> rg3d_core::math::vec3::Vec3;

/// The componentwise sum of two vectors.
pub uninterp spec fn summed(
    a: rg3d_core::math::vec3::Vec3,
    b: rg3d_core::math::vec3::Vec3,
) -> rg3d_core::math::vec3::Vec3;

/// The zero vector. The unit parameter is a placeholder: a specification name
/// takes at least one argument.
pub uninterp spec fn zero_vec(u: ()) -> rg3d_core::math::vec3::Vec3;

/// The identity transform. The unit parameter is a placeholder: a
/// specification name takes at least one argument.
pub uninterp spec fn identity_mat(u: ()) -> rg3d_core::math::mat4::Mat4;

/// The default surface color. The unit parameter is a placeholder: a
/// specification name takes at least one argument.
pub uninterp spec fn default_color(u: ()) -> rg3d_core::color::Color;

/// The translation part of an affine transform: the world position of a node
/// whose world transform is `m`.
pub uninterp spec fn position_of(m: rg3d_core::math::mat4::Mat4) -> rg3d_core::math::vec3::Vec3;

/// Whether the box `b`, with its corners carried through `m`, intersects the
/// frustum `f`.
pub uninterp spec fn box_hits_frustum(
    f: rg3d_core::math::frustum::Frustum,
    b: rg3d_core::math::aabb::AxisAlignedBoundingBox,
    m: rg3d_core::math::mat4::Mat4,
) -> bool;

/// Whether the point `p` lies strictly inside the frustum `f`.
pub uninterp spec fn point_in_frustum(
    f: rg3d_core::math::frustum::Frustum,
    p: rg3d_core::math::vec3::Vec3,
) -> bool;

/// Relies on `AxisAlignedBoundingBox::default`: the inverted-extents box that
/// is the identity for `add_point`.
#[verifier::external_body]
pub fn aabb_default() -> (r: rg3d_core::math::aabb::AxisAlignedBoundingBox)
    ensures
        r == empty_box(()),
{
    rg3d_core::math::aabb::AxisAlignedBoundingBox::default()
}

/// Relies on `AxisAlignedBoundingBox::add_point`: grows the box to contain
/// the given point.
#[verifier::external_body]
pub fn aabb_add_point(
    b: &mut rg3d_core::math::aabb::AxisAlignedBoundingBox,
    p: rg3d_core::math::vec3::Vec3,
)
    ensures
        *final(b) == grown(*old(b), p),
{
    b.add_point(p)
}

/// Relies on `Mat4`'s `Mul` implementation: composes two affine transforms.
#[verifier::external_body]
pub fn mat4_compose(
    a: rg3d_core::math::mat4::Mat4,
    b: rg3d_core::math::mat4::Mat4,
) -> (r: rg3d_core::math::mat4::Mat4)
    ensures
        r == mat_composed(a, b),
{
    a * b
}

/// Relies on `Mat4::transform_vector`: applies an affine transform to a point.
#[verifier::external_body]
pub fn mat4_transform_point(
    m: &rg3d_core::math::mat4::Mat4,
    p: rg3d_core::math::vec3::Vec3,
) -> (r: rg3d_core::math::vec3::Vec3)
    ensures
        r == transformed(*m, p),
{
    m.transform_vector(p)
}

/// Relies on `Mat4::position`: reads the translation part of a transform.
#[verifier::external_body]
pub fn mat4_position(m: &rg3d_core::math::mat4::Mat4) -> (r: rg3d_core::math::vec3::Vec3)
    ensures
        r == position_of(*m),
{
    m.position()
}

/// Relies on `Vec3::scale`: multiplies a point by the scalar carried in the
/// `x` component of `w`.
#[verifier::external_body]
pub fn vec3_scale(
    p: rg3d_core::math::vec3::Vec3,
    w: rg3d_core::math::vec3::Vec3,
) -> (r: rg3d_core::math::vec3::Vec3)
    ensures
        r == scaled(p, w),
{
    p.scale(w.x)
}

/// Relies on `Vec3`'s `Add` implementation: componentwise vector sum.
#[verifier::external_body]
pub fn vec3_add(
    a: rg3d_core::math::vec3::Vec3,
    b: rg3d_core::math::vec3::Vec3,
) -> (r: rg3d_core::math::vec3::Vec3)
    ensures
        r == summed(a, b),
{
    a + b
}

/// Relies on the constant `Mat4::IDENTITY`: the identity transform.
#[verifier::external_body]
pub fn mat4_identity() -> (r: rg3d_core::math::mat4::Mat4)
    ensures
        r == identity_mat(()),
{
    rg3d_core::math::mat4::Mat4::IDENTITY
}

/// Relies on the constant `Color::WHITE`, which `Color::default` also
/// returns: the color every new surface starts with.
#[verifier::external_body]
pub fn color_white() -> (r: rg3d_core::color::Color)
    ensures
        r == default_color(()),
{
    rg3d_core::color::Color::WHITE
}

/// Relies on the constant `Vec3::ZERO`: the zero vector.
#[verifier::external_body]
pub fn vec3_zero() -> (r: rg3d_core::math::vec3::Vec3)
    ensures
        r == zero_vec(()),
{
    rg3d_core::math::vec3::Vec3::ZERO
}

/// Relies on `Frustum::is_intersects_aabb_transform`: tests the transformed
/// corners of a box against the frustum planes.
#[verifier::external_body]
pub fn frustum_box_transform_test(
    f: &rg3d_core::math::frustum::Frustum,
    b: &rg3d_core::math::aabb::AxisAlignedBoundingBox,
    m: &rg3d_core::math::mat4::Mat4,
) -> (r: bool)
    ensures
        r == box_hits_frustum(*f, *b, *m),
{
    f.is_intersects_aabb_transform(b, m)
}

/// Relies on `Frustum::is_contains_point`: tests one point against the
/// frustum planes.
#[verifier::external_body]
pub fn frustum_point_test(
    f: &rg3d_core::math::frustum::Frustum,
    p: rg3d_core::math::vec3::Vec3,
) -> (r: bool)
    ensures
        r == point_in_frustum(*f, p),
{
    f.is_contains_point(p)
}

/// The box obtained by inserting every point of `pts`, in order, into `b`.
pub open spec fn box_folded(
    b: rg3d_core::math::aabb::AxisAlignedBoundingBox,
    pts: Seq<rg3d_core::math::vec3::Vec3>,
) -> rg3d_core::math::aabb::AxisAlignedBoundingBox
    decreases pts.len(),
{
    if pts.len() == 0 {
        b
    } else {
        box_folded(grown(b, pts[0]), pts.drop_first())
    }
}

/// Inserting the points of `p` and then those of `q` is the same as inserting
/// the points of `p + q`.
pub proof fn lemma_box_folded_concat(
    b: rg3d_core::math::aabb::AxisAlignedBoundingBox,
    p: Seq<rg3d_core::math::vec3::Vec3>,
    q: Seq<rg3d_core::math::vec3::Vec3>,
)
    ensures
        box_folded(b, p + q) == box_folded(box_folded(b, p), q),
    decreases p.len(),
{
    if p.len() == 0 {
        assert(p + q =~= q);
    } else {
        assert((p + q).drop_first() =~= p.drop_first() + q);
        lemma_box_folded_concat(grown(b, p[0]), p.drop_first(), q);
    }
}

/// Inserting one more point grows the fold by one step.
pub proof fn lemma_box_folded_push(
    b: rg3d_core::math::aabb::AxisAlignedBoundingBox,
    p: Seq<rg3d_core::math::vec3::Vec3>,
    x: rg3d_core::math::vec3::Vec3,
)
    ensures
        box_folded(b, p.push(x)) == grown(box_folded(b, p), x),
{
    let s = seq![x];
    assert(p.push(x) =~= p + s);
    lemma_box_folded_concat(b, p, s);
    assert(s.drop_first() =~= Seq::<rg3d_core::math::vec3::Vec3>::empty());
    let g = grown(box_folded(b, p), x);
    assert(box_folded(g, s.drop_first()) == g);
    assert(box_folded(box_folded(b, p), s) == g);
}

} // verus!
