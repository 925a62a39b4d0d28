//! The placement of a node relative to its parent, and its resolution into a
//! rectangle in the world.

use vstd::prelude::*;
use crate::fixed::Fixed;
use crate::vec2::Vec2;
use crate::rect::{Anchor, RotatedRect, Rotation};
use crate::scaling::Size2;

verus! {

/// How a node is placed relative to its parent.
#[derive(Clone, Copy, Debug, PartialEq, Eq, Structural)]
pub struct Transform2D {
    /// The pivot of the node's own rotation and scale; the anchor if it
    /// defers.
    pub center: Anchor,
    /// The point of the node that is attached to the parent.
    pub anchor: Anchor,
    /// The point of the parent that the node is attached to; the same as
    /// `anchor` if it defers.
    pub parent_anchor: Anchor,
    /// The displacement of the anchor from the parent's anchor.
    pub offset: Size2,
    /// The rotation of the node on top of its parent's.
    pub rotation: Rotation,
    /// The scale of the node on top of its parent's.
    pub scale: Vec2,
    /// The depth of the node above its parent's.
    pub z: Fixed,
}

impl Transform2D {
    /// The placement at the centre of the parent: no offset, rotation or
    /// scaling.
    pub open spec fn spec_unit() -> Transform2D {
        Transform2D {
            center: Anchor::Inherit,
            anchor: Anchor::preset(0, 0),
            parent_anchor: Anchor::Inherit,
            offset: Size2::of(
                crate::scaling::SizeUnit::Pixels,
                crate::scaling::SizeUnit::Pixels,
                Vec2::zero(),
            ),
            rotation: Rotation::identity(),
            scale: Vec2::one(),
            z: Fixed::zero(),
        }
    }

    /// The placement at the centre of the parent.
    #[verifier::when_used_as_spec(spec_unit)]
    pub fn unit() -> (r: Transform2D)
        ensures
            r == Transform2D::spec_unit(),
    {
        Transform2D {
            center: Anchor::Inherit,
            anchor: Anchor::center(),
            parent_anchor: Anchor::Inherit,
            offset: Size2::zero(),
            rotation: Rotation::identity(),
            scale: Vec2::one(),
            z: Fixed::zero(),
        }
    }

    /// The anchor on the parent that the node is attached to.
    pub open spec fn spec_get_parent_anchor(&self) -> Anchor {
        self.parent_anchor.or(self.anchor)
    }

    /// The anchor on the parent that the node is attached to.
    #[verifier::when_used_as_spec(spec_get_parent_anchor)]
    pub fn get_parent_anchor(&self) -> (r: Anchor)
        ensures
            r == self.spec_get_parent_anchor(),
    {
        self.parent_anchor.or(self.anchor)
    }

    /// The pivot of the node's own rotation and scale.
    pub open spec fn spec_get_center(&self) -> Anchor {
        self.center.or(self.anchor)
    }

    /// The pivot of the node's own rotation and scale.
    #[verifier::when_used_as_spec(spec_get_center)]
    pub fn get_center(&self) -> (r: Anchor)
        ensures
            r == self.spec_get_center(),
    {
        self.center.or(self.anchor)
    }

    /// The rectangle of a node of size `size` placed by this transform in the
    /// parent rectangle `parent`, with the font sizes `em` and `rem`.
    ///
    /// The offset is converted against the parent's size. The node is first
    /// laid flat in the parent's frame with its anchor at the parent's anchor
    /// plus the offset; this fixes the pivot. The pivot is carried into the
    /// world by the parent's scale and rotation. Rotation and scale of the
    /// node compose with the parent's, and the node is turned and scaled
    /// about the pivot. The depth is the parent's plus the node's own.
    pub open spec fn spec_resolve(
        &self,
        size: Vec2,
        parent: RotatedRect,
        em: Fixed,
        rem: Fixed,
    ) -> RotatedRect {
        let half = size.scaled(Fixed { raw: 500_000 });
        let offset = self.offset.as_pixels(parent.size(), em, rem);
        let attach = parent.anchor(self.spec_get_parent_anchor());
        let a = self.anchor.as_vec();
        let c = self.spec_get_center().as_vec();
        let lever = c.minus(a);
        let pivot_flat = offset.plus(lever.plus(lever).times(half));
        let pivot = attach.plus(parent.rotation.apply(pivot_flat.times(parent.scale)));
        let rotation = parent.rotation.followed_by(self.rotation);
        let scale = parent.scale.times(self.scale);
        let back = c.plus(c).times(half).times(scale).negated();
        RotatedRect {
            center: pivot.plus(rotation.apply(back)),
            half_extent: half,
            rotation,
            scale,
            z: parent.z.plus(self.z),
        }
    }

    /// The rectangle of a node of size `size` placed by this transform in the
    /// parent rectangle `parent`; see [`Transform2D::spec_resolve`].
    #[verifier::when_used_as_spec(spec_resolve)]
    pub fn resolve(&self, size: Vec2, parent: RotatedRect, em: Fixed, rem: Fixed) -> (r:
        RotatedRect)
        ensures
            r == self.spec_resolve(size, parent, em, rem),
    {
        let half = size.scaled(Fixed { raw: 500_000 });
        let offset = self.offset.as_pixels(parent.size(), em, rem);
        let attach = parent.anchor(self.get_parent_anchor());
        let a = self.anchor.as_vec();
        let c = self.get_center().as_vec();
        let lever = c.minus(a);
        let pivot_flat = offset.plus(lever.plus(lever).times(half));
        let pivot = attach.plus(parent.rotation.apply(pivot_flat.times(parent.scale)));
        let rotation = parent.rotation.followed_by(self.rotation);
        let scale = parent.scale.times(self.scale);
        let back = c.plus(c).times(half).times(scale).negated();
        RotatedRect {
            center: pivot.plus(rotation.apply(back)),
            half_extent: half,
            rotation,
            scale,
            z: parent.z.plus(self.z),
        }
    }
}

/// Where the anchor of a node is meant to be: the parent's anchor plus the
/// offset, scaled and turned with the parent.
pub open spec fn anchor_target(
    t: Transform2D,
    parent: RotatedRect,
    em: Fixed,
    rem: Fixed,
) -> Vec2 {
    parent.anchor(t.spec_get_parent_anchor()).plus(
        parent.rotation.apply(t.offset.as_pixels(parent.size(), em, rem).times(parent.scale)),
    )
}

/// The anchor of a node lands where it is meant to be: where the node turns
/// and scales about its anchor, the anchor of the resolved rectangle is the
/// parent's anchor plus the offset, whatever the size, rotation and scale of
/// the node.
///
/// This holds as long as nothing sticks to a bound: the cosine and sine of
/// the resolved rotation are at most two in magnitude, the anchor is at most
/// a hundred billion units from the node's centre, and the place meant is at
/// most a million million units from the origin.
pub proof fn lemma_anchor_lands(
    t: Transform2D,
    size: Vec2,
    parent: RotatedRect,
    em: Fixed,
    rem: Fixed,
)
    requires
        t.spec_get_center() == t.anchor,
        ({
            let r = t.spec_resolve(size, parent, em, rem);
            &&& -2_000_000 <= r.rotation.cos@ <= 2_000_000
            &&& -2_000_000 <= r.rotation.sin@ <= 2_000_000
            &&& crate::rect::calm(r.spec_arm(t.anchor), 100_000_000_000_000_000)
            &&& crate::rect::calm(anchor_target(t, parent, em, rem), 1_000_000_000_000_000_000)
        }),
    ensures
        t.spec_resolve(size, parent, em, rem).anchor(t.anchor) == anchor_target(t, parent, em, rem),
{
    let r = t.spec_resolve(size, parent, em, rem);
    let half = size.scaled(Fixed { raw: 500_000 });
    let offset = t.offset.as_pixels(parent.size(), em, rem);
    let a = t.anchor.as_vec();
    let c = t.spec_get_center().as_vec();
    assert(c == a);
    let lever = c.minus(a);
    assert(lever == Vec2::zero());
    assert(lever.plus(lever) == Vec2::zero());
    crate::fixed::lemma_times_zero(half.x);
    crate::fixed::lemma_times_zero(half.y);
    crate::vec2::lemma_vec_plus_zero(offset);
    let pivot = anchor_target(t, parent, em, rem);
    let arm = r.spec_arm(t.anchor);
    assert(arm == c.plus(c).times(half).times(r.scale));
    crate::rect::lemma_rotate_negated(r.rotation, arm);
    let w = r.rotation.apply(arm);
    assert(r.center == pivot.plus(w.negated()));
}

impl Default for Transform2D {
    fn default() -> (r: Transform2D)
        ensures
            r == Transform2D::spec_unit(),
    {
        Transform2D::unit()
    }
}

} // verus!
