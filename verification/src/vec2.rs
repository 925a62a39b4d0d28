//! Two-dimensional fixed-point vectors.

use vstd::prelude::*;
use crate::fixed::Fixed;

verus! {

/// A point or displacement in the plane.
#[derive(Clone, Copy, Debug, PartialEq, Eq, Structural, Hash)]
pub struct Vec2 {
    /// Horizontal component, growing to the right.
    pub x: Fixed,
    /// Vertical component, growing upward.
    pub y: Fixed,
}

impl Vec2 {
    /// The vector with the given components.
    pub open spec fn spec_new(x: Fixed, y: Fixed) -> Vec2 {
        Vec2 { x, y }
    }

    /// The vector with the given components.
    #[verifier::when_used_as_spec(spec_new)]
    pub fn new(x: Fixed, y: Fixed) -> (r: Vec2)
        ensures
            r == Vec2::spec_new(x, y),
    {
        Vec2 { x, y }
    }

    /// The vector with both components equal to `v`.
    pub open spec fn spec_splat(v: Fixed) -> Vec2 {
        Vec2 { x: v, y: v }
    }

    /// The vector with both components equal to `v`.
    #[verifier::when_used_as_spec(spec_splat)]
    pub fn splat(v: Fixed) -> (r: Vec2)
        ensures
            r == Vec2::spec_splat(v),
    {
        Vec2 { x: v, y: v }
    }

    /// The vector of whole components.
    pub open spec fn spec_from_ints(x: i32, y: i32) -> Vec2 {
        Vec2 { x: Fixed::from_int(x), y: Fixed::from_int(y) }
    }

    /// The vector of whole components.
    #[verifier::when_used_as_spec(spec_from_ints)]
    pub fn from_ints(x: i32, y: i32) -> (r: Vec2)
        ensures
            r == Vec2::spec_from_ints(x, y),
    {
        Vec2 { x: Fixed::from_int(x), y: Fixed::from_int(y) }
    }

    /// The origin.
    pub open spec fn spec_zero() -> Vec2 {
        Vec2 { x: Fixed::zero(), y: Fixed::zero() }
    }

    /// The origin.
    #[verifier::when_used_as_spec(spec_zero)]
    pub fn zero() -> (r: Vec2)
        ensures
            r == Vec2::spec_zero(),
    {
        Vec2 { x: Fixed::zero(), y: Fixed::zero() }
    }

    /// The vector `(1, 1)`.
    pub open spec fn spec_one() -> Vec2 {
        Vec2 { x: Fixed::one(), y: Fixed::one() }
    }

    /// The vector `(1, 1)`.
    #[verifier::when_used_as_spec(spec_one)]
    pub fn one() -> (r: Vec2)
        ensures
            r == Vec2::spec_one(),
    {
        Vec2 { x: Fixed::one(), y: Fixed::one() }
    }

    /// The component-wise sum.
    pub open spec fn spec_plus(self, other: Vec2) -> Vec2 {
        Vec2 { x: self.x.plus(other.x), y: self.y.plus(other.y) }
    }

    /// The component-wise sum.
    #[verifier::when_used_as_spec(spec_plus)]
    pub fn plus(self, other: Vec2) -> (r: Vec2)
        ensures
            r == self.spec_plus(other),
    {
        Vec2 { x: self.x.plus(other.x), y: self.y.plus(other.y) }
    }

    /// The component-wise difference.
    pub open spec fn spec_minus(self, other: Vec2) -> Vec2 {
        Vec2 { x: self.x.minus(other.x), y: self.y.minus(other.y) }
    }

    /// The component-wise difference.
    #[verifier::when_used_as_spec(spec_minus)]
    pub fn minus(self, other: Vec2) -> (r: Vec2)
        ensures
            r == self.spec_minus(other),
    {
        Vec2 { x: self.x.minus(other.x), y: self.y.minus(other.y) }
    }

    /// The component-wise product.
    pub open spec fn spec_times(self, other: Vec2) -> Vec2 {
        Vec2 { x: self.x.times(other.x), y: self.y.times(other.y) }
    }

    /// The component-wise product.
    #[verifier::when_used_as_spec(spec_times)]
    pub fn times(self, other: Vec2) -> (r: Vec2)
        ensures
            r == self.spec_times(other),
    {
        Vec2 { x: self.x.times(other.x), y: self.y.times(other.y) }
    }

    /// The component-wise quotient.
    pub open spec fn spec_over(self, other: Vec2) -> Vec2 {
        Vec2 { x: self.x.over(other.x), y: self.y.over(other.y) }
    }

    /// The component-wise quotient.
    #[verifier::when_used_as_spec(spec_over)]
    pub fn over(self, other: Vec2) -> (r: Vec2)
        ensures
            r == self.spec_over(other),
    {
        Vec2 { x: self.x.over(other.x), y: self.y.over(other.y) }
    }

    /// Both components multiplied by `k`.
    pub open spec fn spec_scaled(self, k: Fixed) -> Vec2 {
        Vec2 { x: self.x.times(k), y: self.y.times(k) }
    }

    /// Both components multiplied by `k`.
    #[verifier::when_used_as_spec(spec_scaled)]
    pub fn scaled(self, k: Fixed) -> (r: Vec2)
        ensures
            r == self.spec_scaled(k),
    {
        Vec2 { x: self.x.times(k), y: self.y.times(k) }
    }

    /// Both components negated.
    pub open spec fn spec_negated(self) -> Vec2 {
        Vec2 { x: self.x.negated(), y: self.y.negated() }
    }

    /// Both components negated.
    #[verifier::when_used_as_spec(spec_negated)]
    pub fn negated(self) -> (r: Vec2)
        ensures
            r == self.spec_negated(),
    {
        Vec2 { x: self.x.negated(), y: self.y.negated() }
    }

    /// The magnitudes of both components.
    pub open spec fn spec_magnitudes(self) -> Vec2 {
        Vec2 { x: self.x.magnitude(), y: self.y.magnitude() }
    }

    /// The magnitudes of both components.
    #[verifier::when_used_as_spec(spec_magnitudes)]
    pub fn magnitudes(self) -> (r: Vec2)
        ensures
            r == self.spec_magnitudes(),
    {
        Vec2 { x: self.x.magnitude(), y: self.y.magnitude() }
    }
}

/// Adding the origin changes nothing.
pub proof fn lemma_vec_plus_zero(v: Vec2)
    ensures
        v.plus(Vec2::zero()) == v,
        Vec2::zero().plus(v) == v,
{
    crate::fixed::lemma_plus_zero(v.x);
    crate::fixed::lemma_plus_zero(v.y);
}

/// Multiplying by `(1, 1)` changes nothing.
pub proof fn lemma_vec_times_one(v: Vec2)
    ensures
        v.times(Vec2::one()) == v,
        v.scaled(Fixed::one()) == v,
{
    crate::fixed::lemma_times_one(v.x);
    crate::fixed::lemma_times_one(v.y);
}

} // verus!
