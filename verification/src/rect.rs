//! Anchors, rotations and the resolved rectangle of a node.

use vstd::prelude::*;
use crate::fixed::Fixed;
use crate::vec2::Vec2;

verus! {

/// A reference point on a rectangle, as a fraction of its size measured from
/// its centre: `-0.5` is the left or bottom edge, `0.5` the right or top edge.
///
/// `Inherit` stands for "the same as another anchor" and is replaced through
/// [`Anchor::or`] before a position is computed.
#[derive(Clone, Copy, Debug, PartialEq, Eq, Structural)]
pub enum Anchor {
    /// Take the anchor from somewhere else.
    Inherit,
    /// A point given as a fraction of the rectangle's size.
    At(Vec2),
}

impl Anchor {
    /// The anchor at the given fractions, in millionths.
    pub open spec fn preset(x: int, y: int) -> Anchor {
        Anchor::At(Vec2 { x: Fixed { raw: x as i64 }, y: Fixed { raw: y as i64 } })
    }

    /// The anchor at the fractions `x` and `y`.
    pub fn custom(x: Fixed, y: Fixed) -> (r: Anchor)
        ensures
            r == Anchor::At(Vec2 { x, y }),
    {
        Anchor::At(Vec2 { x, y })
    }

    /// The anchor that defers to another one.
    pub fn inherit() -> (r: Anchor)
        ensures
            r == Anchor::Inherit,
    {
        Anchor::Inherit
    }

    /// The top left corner.
    pub fn top_left() -> (r: Anchor)
        ensures
            r == Anchor::preset(-500_000, 500_000),
    {
        Anchor::At(Vec2 { x: Fixed { raw: -500_000 }, y: Fixed { raw: 500_000 } })
    }

    /// The middle of the top edge.
    pub fn top_center() -> (r: Anchor)
        ensures
            r == Anchor::preset(0, 500_000),
    {
        Anchor::At(Vec2 { x: Fixed { raw: 0 }, y: Fixed { raw: 500_000 } })
    }

    /// The top right corner.
    pub fn top_right() -> (r: Anchor)
        ensures
            r == Anchor::preset(500_000, 500_000),
    {
        Anchor::At(Vec2 { x: Fixed { raw: 500_000 }, y: Fixed { raw: 500_000 } })
    }

    /// The middle of the left edge.
    pub fn center_left() -> (r: Anchor)
        ensures
            r == Anchor::preset(-500_000, 0),
    {
        Anchor::At(Vec2 { x: Fixed { raw: -500_000 }, y: Fixed { raw: 0 } })
    }

    /// The centre.
    pub fn center() -> (r: Anchor)
        ensures
            r == Anchor::preset(0, 0),
    {
        Anchor::At(Vec2 { x: Fixed { raw: 0 }, y: Fixed { raw: 0 } })
    }

    /// The middle of the right edge.
    pub fn center_right() -> (r: Anchor)
        ensures
            r == Anchor::preset(500_000, 0),
    {
        Anchor::At(Vec2 { x: Fixed { raw: 500_000 }, y: Fixed { raw: 0 } })
    }

    /// The bottom left corner.
    pub fn bottom_left() -> (r: Anchor)
        ensures
            r == Anchor::preset(-500_000, -500_000),
    {
        Anchor::At(Vec2 { x: Fixed { raw: -500_000 }, y: Fixed { raw: -500_000 } })
    }

    /// The middle of the bottom edge.
    pub fn bottom_center() -> (r: Anchor)
        ensures
            r == Anchor::preset(0, -500_000),
    {
        Anchor::At(Vec2 { x: Fixed { raw: 0 }, y: Fixed { raw: -500_000 } })
    }

    /// The bottom right corner.
    pub fn bottom_right() -> (r: Anchor)
        ensures
            r == Anchor::preset(500_000, -500_000),
    {
        Anchor::At(Vec2 { x: Fixed { raw: 500_000 }, y: Fixed { raw: -500_000 } })
    }

    /// Whether the anchor defers to another one.
    pub open spec fn spec_is_inherit(self) -> bool {
        self is Inherit
    }

    /// Whether the anchor defers to another one.
    #[verifier::when_used_as_spec(spec_is_inherit)]
    pub fn is_inherit(self) -> (r: bool)
        ensures
            r == self.spec_is_inherit(),
    {
        match self {
            Anchor::Inherit => true,
            Anchor::At(_) => false,
        }
    }

    /// This anchor, or `other` where this one defers.
    pub open spec fn spec_or(self, other: Anchor) -> Anchor {
        match self {
            Anchor::Inherit => other,
            Anchor::At(_) => self,
        }
    }

    /// This anchor, or `other` where this one defers.
    #[verifier::when_used_as_spec(spec_or)]
    pub fn or(self, other: Anchor) -> (r: Anchor)
        ensures
            r == self.spec_or(other),
    {
        match self {
            Anchor::Inherit => other,
            Anchor::At(_) => self,
        }
    }

    /// The fractions of the anchor; the centre for one that defers.
    pub open spec fn spec_as_vec(self) -> Vec2 {
        match self {
            Anchor::Inherit => Vec2::zero(),
            Anchor::At(v) => v,
        }
    }

    /// The fractions of the anchor; the centre for one that defers.
    #[verifier::when_used_as_spec(spec_as_vec)]
    pub fn as_vec(self) -> (r: Vec2)
        ensures
            r == self.spec_as_vec(),
    {
        match self {
            Anchor::Inherit => Vec2::zero(),
            Anchor::At(v) => v,
        }
    }

    /// Whether both fractions lie within `[-0.5, 0.5]`.
    pub open spec fn spec_is_normalized(self) -> bool {
        match self {
            Anchor::Inherit => true,
            Anchor::At(v) => -500_000 <= v.x@ <= 500_000 && -500_000 <= v.y@ <= 500_000,
        }
    }

    /// Whether both fractions lie within `[-0.5, 0.5]`.
    #[verifier::when_used_as_spec(spec_is_normalized)]
    pub fn is_normalized(self) -> (r: bool)
        ensures
            r == self.spec_is_normalized(),
    {
        match self {
            Anchor::Inherit => true,
            Anchor::At(v) => -500_000 <= v.x.raw && v.x.raw <= 500_000 && -500_000 <= v.y.raw && v.y.raw <= 500_000,
        }
    }
}

/// A rotation: its angle in radians together with the cosine and sine of that
/// angle.
///
/// The engine never evaluates a trigonometric function. Whoever creates a
/// rotation supplies the cosine and sine; rotations compose by adding angles
/// and multiplying the unit vectors.
#[derive(Clone, Copy, Debug, PartialEq, Eq, Structural)]
pub struct Rotation {
    /// The angle in radians, counter-clockwise.
    pub angle: Fixed,
    /// The cosine of the angle.
    pub cos: Fixed,
    /// The sine of the angle.
    pub sin: Fixed,
}

impl Rotation {
    /// The rotation by nothing.
    pub open spec fn spec_identity() -> Rotation {
        Rotation { angle: Fixed::zero(), cos: Fixed::one(), sin: Fixed::zero() }
    }

    /// The rotation by nothing.
    #[verifier::when_used_as_spec(spec_identity)]
    pub fn identity() -> (r: Rotation)
        ensures
            r == Rotation::spec_identity(),
    {
        Rotation { angle: Fixed::zero(), cos: Fixed::one(), sin: Fixed::zero() }
    }

    /// The rotation by `angle`, whose cosine and sine are `cos` and `sin`.
    pub fn new(angle: Fixed, cos: Fixed, sin: Fixed) -> (r: Rotation)
        ensures
            r == (Rotation { angle, cos, sin }),
    {
        Rotation { angle, cos, sin }
    }

    /// This rotation followed by `other`: the angles add, the unit vectors
    /// multiply as complex numbers.
    pub open spec fn spec_followed_by(self, other: Rotation) -> Rotation {
        Rotation {
            angle: self.angle.plus(other.angle),
            cos: self.cos.times(other.cos).minus(self.sin.times(other.sin)),
            sin: self.sin.times(other.cos).plus(self.cos.times(other.sin)),
        }
    }

    /// This rotation followed by `other`.
    #[verifier::when_used_as_spec(spec_followed_by)]
    pub fn followed_by(self, other: Rotation) -> (r: Rotation)
        ensures
            r == self.spec_followed_by(other),
    {
        Rotation {
            angle: self.angle.plus(other.angle),
            cos: self.cos.times(other.cos).minus(self.sin.times(other.sin)),
            sin: self.sin.times(other.cos).plus(self.cos.times(other.sin)),
        }
    }

    /// `v` turned by this rotation.
    pub open spec fn spec_apply(self, v: Vec2) -> Vec2 {
        Vec2 {
            x: self.cos.times(v.x).minus(self.sin.times(v.y)),
            y: self.sin.times(v.x).plus(self.cos.times(v.y)),
        }
    }

    /// `v` turned by this rotation.
    #[verifier::when_used_as_spec(spec_apply)]
    pub fn apply(self, v: Vec2) -> (r: Vec2)
        ensures
            r == self.spec_apply(v),
    {
        Vec2 {
            x: self.cos.times(v.x).minus(self.sin.times(v.y)),
            y: self.sin.times(v.x).plus(self.cos.times(v.y)),
        }
    }

    /// `v` turned back by this rotation.
    pub open spec fn spec_unapply(self, v: Vec2) -> Vec2 {
        Vec2 {
            x: self.cos.times(v.x).plus(self.sin.times(v.y)),
            y: self.cos.times(v.y).minus(self.sin.times(v.x)),
        }
    }

    /// `v` turned back by this rotation.
    #[verifier::when_used_as_spec(spec_unapply)]
    pub fn unapply(self, v: Vec2) -> (r: Vec2)
        ensures
            r == self.spec_unapply(v),
    {
        Vec2 {
            x: self.cos.times(v.x).plus(self.sin.times(v.y)),
            y: self.cos.times(v.y).minus(self.sin.times(v.x)),
        }
    }
}

/// The resolved placement of a node: what rendering and hit testing consume.
#[derive(Clone, Copy, Debug, PartialEq, Eq, Structural)]
pub struct RotatedRect {
    /// World position of the rectangle's centre.
    pub center: Vec2,
    /// Half of the node's width and height, before scaling.
    pub half_extent: Vec2,
    /// Accumulated rotation.
    pub rotation: Rotation,
    /// Accumulated scale.
    pub scale: Vec2,
    /// Depth: larger values are nearer to the viewer.
    pub z: Fixed,
}

impl RotatedRect {
    /// The axis-aligned, unscaled rectangle of the given centre and half
    /// extent, at depth zero.
    pub open spec fn spec_upright(center: Vec2, half_extent: Vec2) -> RotatedRect {
        RotatedRect {
            center,
            half_extent,
            rotation: Rotation::identity(),
            scale: Vec2::one(),
            z: Fixed::zero(),
        }
    }

    /// The axis-aligned, unscaled rectangle of the given centre and half
    /// extent, at depth zero.
    #[verifier::when_used_as_spec(spec_upright)]
    pub fn upright(center: Vec2, half_extent: Vec2) -> (r: RotatedRect)
        ensures
            r == RotatedRect::spec_upright(center, half_extent),
    {
        RotatedRect {
            center,
            half_extent,
            rotation: Rotation::identity(),
            scale: Vec2::one(),
            z: Fixed::zero(),
        }
    }

    /// Width and height before scaling.
    pub open spec fn spec_size(self) -> Vec2 {
        self.half_extent.plus(self.half_extent)
    }

    /// Width and height before scaling.
    #[verifier::when_used_as_spec(spec_size)]
    pub fn size(self) -> (r: Vec2)
        ensures
            r == self.spec_size(),
    {
        self.half_extent.plus(self.half_extent)
    }

    /// The displacement from the centre to the anchor `a`, before rotation:
    /// twice the anchor's fraction of the half extent, scaled.
    pub open spec fn spec_arm(self, a: Anchor) -> Vec2 {
        let f = a.as_vec();
        f.plus(f).times(self.half_extent).times(self.scale)
    }

    /// The displacement from the centre to the anchor `a`, before rotation.
    #[verifier::when_used_as_spec(spec_arm)]
    pub fn arm(self, a: Anchor) -> (r: Vec2)
        ensures
            r == self.spec_arm(a),
    {
        let f = a.as_vec();
        f.plus(f).times(self.half_extent).times(self.scale)
    }

    /// The world position of the anchor `a` of this rectangle.
    pub open spec fn spec_anchor(self, a: Anchor) -> Vec2 {
        self.center.plus(self.rotation.apply(self.spec_arm(a)))
    }

    /// The world position of the anchor `a` of this rectangle. An anchor that
    /// defers counts as the centre.
    #[verifier::when_used_as_spec(spec_anchor)]
    pub fn anchor(self, a: Anchor) -> (r: Vec2)
        ensures
            r == self.spec_anchor(a),
    {
        self.center.plus(self.rotation.apply(self.arm(a)))
    }

    /// The world position `p` seen from the rectangle: relative to its centre
    /// and turned back by its rotation.
    pub open spec fn spec_local(self, p: Vec2) -> Vec2 {
        self.rotation.unapply(p.minus(self.center))
    }

    /// The world position `p` seen from the rectangle.
    #[verifier::when_used_as_spec(spec_local)]
    pub fn local(self, p: Vec2) -> (r: Vec2)
        ensures
            r == self.spec_local(p),
    {
        self.rotation.unapply(p.minus(self.center))
    }
}

/// The outline of a hitbox.
#[derive(Clone, Copy, Debug, PartialEq, Eq, Structural)]
pub enum HitboxShape {
    /// The rectangle itself.
    Rect,
    /// The ellipse inscribed in the rectangle.
    Ellipse,
}

/// The region of a node that reacts to the pointer: a shape fitted to the
/// node's rectangle, enlarged or shrunk by `scale`.
#[derive(Clone, Copy, Debug, PartialEq, Eq, Structural)]
pub struct Hitbox {
    /// The outline.
    pub shape: HitboxShape,
    /// Size of the region as a multiple of the rectangle's size.
    pub scale: Vec2,
}

impl Hitbox {
    /// The rectangular hitbox of the given relative size.
    pub fn rect(value: Vec2) -> (r: Hitbox)
        ensures
            r == (Hitbox { shape: HitboxShape::Rect, scale: value }),
    {
        Hitbox { shape: HitboxShape::Rect, scale: value }
    }

    /// The elliptical hitbox of the given relative size.
    pub fn ellipse(value: Vec2) -> (r: Hitbox)
        ensures
            r == (Hitbox { shape: HitboxShape::Ellipse, scale: value }),
    {
        Hitbox { shape: HitboxShape::Ellipse, scale: value }
    }

    /// The hitbox that covers exactly the rectangle.
    pub fn full() -> (r: Hitbox)
        ensures
            r == (Hitbox { shape: HitboxShape::Rect, scale: Vec2::one() }),
    {
        Hitbox { shape: HitboxShape::Rect, scale: Vec2::one() }
    }

    /// Half width and half height of the region in world units.
    pub open spec fn spec_reach(self, rect: RotatedRect) -> Vec2 {
        rect.half_extent.times(rect.scale).times(self.scale).magnitudes()
    }

    /// Half width and half height of the region in world units.
    #[verifier::when_used_as_spec(spec_reach)]
    pub fn reach(self, rect: RotatedRect) -> (r: Vec2)
        ensures
            r == self.spec_reach(rect),
    {
        rect.half_extent.times(rect.scale).times(self.scale).magnitudes()
    }

    /// Whether the world position `p` lies in the region fitted to `rect`,
    /// border included.
    ///
    /// For a rectangle both local coordinates stay within the reach. For an
    /// ellipse of half axes `a`, `b` the local point `(x, y)` satisfies
    /// `(x·b)² + (y·a)² ≤ (a·b)²`.
    pub open spec fn spec_contains(self, rect: RotatedRect, p: Vec2) -> bool {
        let q = rect.local(p).magnitudes();
        let reach = self.spec_reach(rect);
        match self.shape {
            HitboxShape::Rect => q.x@ <= reach.x@ && q.y@ <= reach.y@,
            HitboxShape::Ellipse => {
                let u = q.x.times(reach.y);
                let v = q.y.times(reach.x);
                let w = reach.x.times(reach.y);
                u.times(u).plus(v.times(v))@ <= w.times(w)@
            },
        }
    }

    /// Whether the world position `p` lies in the region fitted to `rect`,
    /// border included.
    #[verifier::when_used_as_spec(spec_contains)]
    pub fn contains(self, rect: RotatedRect, p: Vec2) -> (r: bool)
        ensures
            r == self.spec_contains(rect, p),
    {
        let q = rect.local(p).magnitudes();
        let reach = self.reach(rect);
        match self.shape {
            HitboxShape::Rect => q.x.raw <= reach.x.raw && q.y.raw <= reach.y.raw,
            HitboxShape::Ellipse => {
                let u = q.x.times(reach.y);
                let v = q.y.times(reach.x);
                let w = reach.x.times(reach.y);
                u.times(u).plus(v.times(v)).raw <= w.times(w).raw
            },
        }
    }
}

/// Whether both components of `v` lie within `bound` of zero, in millionths.
pub open spec fn calm(v: Vec2, bound: int) -> bool {
    -bound <= v.x@ <= bound && -bound <= v.y@ <= bound
}

/// Turning the negative of a vector gives the negative of the turned vector,
/// as long as the cosine and sine are at most two in magnitude and the vector
/// is small enough for nothing to stick to a bound. The turned vector is then
/// at most four times as long.
pub proof fn lemma_rotate_negated(rot: Rotation, v: Vec2)
    requires
        -2_000_000 <= rot.cos@ <= 2_000_000,
        -2_000_000 <= rot.sin@ <= 2_000_000,
        calm(v, 100_000_000_000_000_000),
    ensures
        rot.apply(v.negated()) == rot.apply(v).negated(),
        calm(rot.apply(v), 400_000_000_000_000_000),
{
    let k = 2_000_000int;
    let m = 100_000_000_000_000_000int;
    assert((k * m) / 1_000_000 == 200_000_000_000_000_000) by (nonlinear_arith)
        requires
            k == 2_000_000,
            m == 100_000_000_000_000_000,
    ;
    crate::fixed::lemma_times_bound(rot.cos, v.x, k, m);
    crate::fixed::lemma_times_bound(rot.sin, v.y, k, m);
    crate::fixed::lemma_times_bound(rot.sin, v.x, k, m);
    crate::fixed::lemma_times_bound(rot.cos, v.y, k, m);
    crate::fixed::lemma_times_negated(rot.cos, v.x);
    crate::fixed::lemma_times_negated(rot.sin, v.y);
    crate::fixed::lemma_times_negated(rot.sin, v.x);
    crate::fixed::lemma_times_negated(rot.cos, v.y);
}

/// The identity rotation leaves every vector as it is, in both directions.
pub proof fn lemma_identity_rotation(v: Vec2)
    ensures
        Rotation::identity().apply(v) == v,
        Rotation::identity().unapply(v) == v,
{
    crate::fixed::lemma_times_one(v.x);
    crate::fixed::lemma_times_one(v.y);
    crate::fixed::lemma_times_zero(v.x);
    crate::fixed::lemma_times_zero(v.y);
}

/// The centre anchor of any rectangle is its centre, whatever its rotation
/// and scale.
pub proof fn lemma_anchor_center(rect: RotatedRect)
    ensures
        rect.anchor(Anchor::preset(0, 0)) == rect.center,
{
    let f = Anchor::preset(0, 0).as_vec();
    assert(f == Vec2::zero());
    assert(f.plus(f) == Vec2::zero());
    crate::fixed::lemma_times_zero(rect.half_extent.x);
    crate::fixed::lemma_times_zero(rect.half_extent.y);
    crate::fixed::lemma_times_zero(rect.scale.x);
    crate::fixed::lemma_times_zero(rect.scale.y);
    let arm = rect.spec_arm(Anchor::preset(0, 0));
    assert(arm == Vec2::zero());
    crate::fixed::lemma_times_zero(rect.rotation.cos);
    crate::fixed::lemma_times_zero(rect.rotation.sin);
    assert(rect.rotation.apply(arm) == Vec2::zero());
    crate::vec2::lemma_vec_plus_zero(rect.center);
}

/// On an upright rectangle of scale one, the top left anchor lies at the
/// centre moved left by the half width and up by the half height.
pub proof fn lemma_anchor_top_left(center: Vec2, half_extent: Vec2)
    ensures
        RotatedRect::upright(center, half_extent).anchor(Anchor::preset(-500_000, 500_000)) == center.plus(
            Vec2 { x: half_extent.x.negated(), y: half_extent.y },
        ),
{
    let rect = RotatedRect::upright(center, half_extent);
    let f = Anchor::preset(-500_000, 500_000).as_vec();
    let d = f.plus(f);
    assert(d.x@ == -1_000_000 && d.y@ == 1_000_000);
    let hx = half_extent.x@;
    assert(d.x.times(half_extent.x) == half_extent.x.negated()) by {
        assert((-1_000_000) * hx == -(1_000_000 * hx)) by (nonlinear_arith);
        if hx > 0 {
            assert(-((-1_000_000) * hx) == 1_000_000 * hx);
            assert((1_000_000 * hx) / 1_000_000 == hx);
        } else {
            assert(((-1_000_000) * hx) / 1_000_000 == -hx);
        }
    }
    crate::fixed::lemma_times_one(half_extent.y);
    let e = d.times(half_extent);
    assert(e == Vec2 { x: half_extent.x.negated(), y: half_extent.y });
    crate::vec2::lemma_vec_times_one(e);
    lemma_identity_rotation(e);
}

} // verus!
