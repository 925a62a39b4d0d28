//! Shadows under widgets.

use vstd::prelude::*;
use crate::fixed::Fixed;
use crate::vec2::Vec2;
use crate::scaling::{Size2, SizeUnit};
use crate::anim::interpolate::Color;
use crate::dsl::converters::DslFromOptionEx;

verus! {

/// A shadow as a widget asks for it.
#[derive(Debug, Clone, Copy, PartialEq, Eq, Structural)]
pub struct ShadowInfo {
    /// How far the shadow reaches beyond the widget, in pixels.
    pub size: Fixed,
    /// The colour of the shadow.
    pub color: Color,
    /// How much darker than plain the shadow is, from zero to one: the shadow
    /// is drawn as the more compact shadow of a slightly larger shape.
    pub darken: Fixed,
}

/// A shadow as it is drawn.
#[derive(Debug, Clone, Copy, PartialEq, Eq, Structural)]
pub struct ShadowPlan {
    /// The size of the shadow's node: the parent's plus the reach on every
    /// side.
    pub dimension: Size2,
    /// The depth of the shadow against the widget.
    pub z: Fixed,
    /// The colour.
    pub color: Color,
    /// How far the blur reaches.
    pub blur: Fixed,
    /// The radius of the corners; none for a capsule.
    pub corner: Option<Fixed>,
}

impl ShadowInfo {
    /// The shadow as drawn, with round ends or with corners of the radius
    /// `corner`: the node is larger than the widget by twice the reach in
    /// each direction and lies just behind it; the blur is the reach less the
    /// part taken by darkening.
    pub open spec fn spec_plan(self, corner: Option<Fixed>) -> ShadowPlan {
        let grow = self.size.times(Fixed::from_int(2));
        ShadowPlan {
            dimension: Size2::of(
                SizeUnit::MarginPx,
                SizeUnit::MarginPx,
                Vec2 { x: grow, y: grow },
            ),
            z: Fixed { raw: (-5_000) as i64 },
            color: self.color,
            blur: self.size.minus(self.size.times(self.darken)),
            corner,
        }
    }

    /// The shadow as drawn; see [`ShadowInfo::spec_plan`].
    #[verifier::when_used_as_spec(spec_plan)]
    pub fn plan(self, corner: Option<Fixed>) -> (r: ShadowPlan)
        ensures
            r == self.spec_plan(corner),
    {
        let grow = self.size.times(Fixed::from_int(2));
        ShadowPlan {
            dimension: Size2 {
                x: SizeUnit::MarginPx,
                y: SizeUnit::MarginPx,
                raw: Vec2 { x: grow, y: grow },
            },
            z: Fixed { raw: -5_000 },
            color: self.color,
            blur: self.size.minus(self.size.times(self.darken)),
            corner,
        }
    }

    /// The shadow of a capsule as drawn.
    pub fn build_capsule(&self) -> (r: ShadowPlan)
        ensures
            r == self.spec_plan(None),
    {
        self.plan(None)
    }

    /// The shadow of a rectangle with corners of the radius `corner` as drawn.
    pub fn build_rect(&self, corner: Fixed) -> (r: ShadowPlan)
        ensures
            r == self.spec_plan(Some(corner)),
    {
        self.plan(Some(corner))
    }
}

impl Default for ShadowInfo {
    fn default() -> (r: ShadowInfo)
        ensures
            r == (ShadowInfo { size: Fixed::zero(), color: Color::black(), darken: Fixed::zero() }),
    {
        ShadowInfo { size: Fixed::zero(), color: Color::black(), darken: Fixed::zero() }
    }
}

impl DslFromOptionEx<i32> for ShadowInfo {
    open spec fn spec_dfrom_option(value: i32) -> ShadowInfo {
        ShadowInfo { size: Fixed::from_int(value), color: Color::black(), darken: Fixed::zero() }
    }

    fn dfrom_option(value: i32) -> (r: ShadowInfo) {
        ShadowInfo { size: Fixed::from_int(value), color: Color::black(), darken: Fixed::zero() }
    }
}

impl DslFromOptionEx<Fixed> for ShadowInfo {
    open spec fn spec_dfrom_option(value: Fixed) -> ShadowInfo {
        ShadowInfo { size: value, color: Color::black(), darken: Fixed::zero() }
    }

    fn dfrom_option(value: Fixed) -> (r: ShadowInfo) {
        ShadowInfo { size: value, color: Color::black(), darken: Fixed::zero() }
    }
}

impl DslFromOptionEx<(Color, i32)> for ShadowInfo {
    open spec fn spec_dfrom_option(value: (Color, i32)) -> ShadowInfo {
        ShadowInfo { size: Fixed::from_int(value.1), color: value.0, darken: Fixed::zero() }
    }

    fn dfrom_option(value: (Color, i32)) -> (r: ShadowInfo) {
        ShadowInfo { size: Fixed::from_int(value.1), color: value.0, darken: Fixed::zero() }
    }
}

impl DslFromOptionEx<(Color, Fixed)> for ShadowInfo {
    open spec fn spec_dfrom_option(value: (Color, Fixed)) -> ShadowInfo {
        ShadowInfo { size: value.1, color: value.0, darken: Fixed::zero() }
    }

    fn dfrom_option(value: (Color, Fixed)) -> (r: ShadowInfo) {
        ShadowInfo { size: value.1, color: value.0, darken: Fixed::zero() }
    }
}

impl DslFromOptionEx<(i32, Color)> for ShadowInfo {
    open spec fn spec_dfrom_option(value: (i32, Color)) -> ShadowInfo {
        ShadowInfo { size: Fixed::from_int(value.0), color: value.1, darken: Fixed::zero() }
    }

    fn dfrom_option(value: (i32, Color)) -> (r: ShadowInfo) {
        ShadowInfo { size: Fixed::from_int(value.0), color: value.1, darken: Fixed::zero() }
    }
}

impl DslFromOptionEx<(Fixed, Color)> for ShadowInfo {
    open spec fn spec_dfrom_option(value: (Fixed, Color)) -> ShadowInfo {
        ShadowInfo { size: value.0, color: value.1, darken: Fixed::zero() }
    }

    fn dfrom_option(value: (Fixed, Color)) -> (r: ShadowInfo) {
        ShadowInfo { size: value.0, color: value.1, darken: Fixed::zero() }
    }
}

} // verus!
