//! What the shapes of a widget are drawn with.

use vstd::prelude::*;
use crate::fixed::Fixed;
use crate::vec2::Vec2;
use crate::dimension::DimensionData;
use crate::anim::interpolate::{Color, Coloring, Opacity};
use crate::widgets::colors::StrokeColoring;

verus! {

/// The radii of the four corners of a rectangle.
#[derive(Debug, Clone, Copy, PartialEq, Eq, Structural)]
pub struct Corners {
    pub top_left: Fixed,
    pub top_right: Fixed,
    pub bottom_left: Fixed,
    pub bottom_right: Fixed,
}

impl Corners {
    /// Four corners of the radius `radius`.
    pub open spec fn spec_splat(radius: Fixed) -> Corners {
        Corners { top_left: radius, top_right: radius, bottom_left: radius, bottom_right: radius }
    }

    /// Four corners of the radius `radius`.
    #[verifier::when_used_as_spec(spec_splat)]
    pub fn splat(radius: Fixed) -> (r: Corners)
        ensures
            r == Corners::spec_splat(radius),
    {
        Corners { top_left: radius, top_right: radius, bottom_left: radius, bottom_right: radius }
    }
}

/// Something that says how round the corners of a rectangle are.
pub trait IntoCorners: Sized {
    /// The radii of the four corners.
    spec fn spec_into_corners(self) -> Corners;

    /// The radii of the four corners.
    fn into_corners(self) -> (r: Corners)
        ensures
            r == self.spec_into_corners(),
    ;
}

impl IntoCorners for Fixed {
    open spec fn spec_into_corners(self) -> Corners {
        Corners::spec_splat(self)
    }

    fn into_corners(self) -> (r: Corners) {
        Corners::splat(self)
    }
}

impl IntoCorners for i32 {
    open spec fn spec_into_corners(self) -> Corners {
        Corners::spec_splat(Fixed::from_int(self))
    }

    fn into_corners(self) -> (r: Corners) {
        Corners::splat(Fixed::from_int(self))
    }
}

impl IntoCorners for Corners {
    open spec fn spec_into_corners(self) -> Corners {
        self
    }

    fn into_corners(self) -> (r: Corners) {
        self
    }
}

/// How the shadow of a shape is drawn.
#[derive(Debug, Clone, Copy, PartialEq, Eq, Structural)]
pub struct RoundedShadowMaterial {
    /// The colour.
    pub color: Color,
    /// How far the blur reaches, in pixels.
    pub shadow_size: Fixed,
    /// The size of the shape on screen, in pixels.
    pub size: Vec2,
    /// Whether the ends are round.
    pub capsule: bool,
    /// The radii of the corners.
    pub corners: Corners,
}

impl RoundedShadowMaterial {
    /// The shadow of a rectangle with corners of the radius `corner`.
    pub fn new(color: Color, corner: Fixed, size: Fixed) -> (r: RoundedShadowMaterial)
        ensures
            r == (RoundedShadowMaterial {
                color,
                shadow_size: size,
                size: Vec2::zero(),
                capsule: false,
                corners: Corners::splat(corner),
            }),
    {
        RoundedShadowMaterial {
            color,
            shadow_size: size,
            size: Vec2::zero(),
            capsule: false,
            corners: Corners::splat(corner),
        }
    }

    /// The shadow of a capsule.
    pub fn capsule(color: Color, size: Fixed) -> (r: RoundedShadowMaterial)
        ensures
            r == (RoundedShadowMaterial {
                color,
                shadow_size: size,
                size: Vec2::zero(),
                capsule: true,
                corners: Corners::splat(Fixed::zero()),
            }),
    {
        RoundedShadowMaterial {
            color,
            shadow_size: size,
            size: Vec2::zero(),
            capsule: true,
            corners: Corners::splat(Fixed::zero()),
        }
    }
}

/// How a shape with round corners is drawn.
#[derive(Debug, Clone, Copy, PartialEq, Eq, Structural)]
pub struct RoundedRectangleMaterial {
    /// The fill colour.
    pub color: Color,
    /// The radii of the corners.
    pub corners: Corners,
    /// The size of the shape on screen, in pixels.
    pub size: Vec2,
    /// Whether the ends are round.
    pub capsule: bool,
    /// The colour of the outline.
    pub stroke_color: Color,
    /// The width of the outline.
    pub stroke_size: Fixed,
}

impl RoundedRectangleMaterial {
    /// A rectangle with the given corners, without outline.
    pub fn new<C: IntoCorners>(color: Color, corner: C) -> (r: RoundedRectangleMaterial)
        ensures
            r == (RoundedRectangleMaterial {
                color,
                corners: corner.spec_into_corners(),
                size: Vec2::zero(),
                capsule: false,
                stroke_color: Color::none(),
                stroke_size: Fixed::zero(),
            }),
    {
        RoundedRectangleMaterial {
            color,
            corners: corner.into_corners(),
            size: Vec2::zero(),
            capsule: false,
            stroke_color: Color::none(),
            stroke_size: Fixed::zero(),
        }
    }

    /// A capsule, without outline.
    pub fn capsule(color: Color) -> (r: RoundedRectangleMaterial)
        ensures
            r == (RoundedRectangleMaterial {
                color,
                corners: Corners::splat(Fixed::zero()),
                size: Vec2::zero(),
                capsule: true,
                stroke_color: Color::none(),
                stroke_size: Fixed::zero(),
            }),
    {
        RoundedRectangleMaterial {
            color,
            corners: Corners::splat(Fixed::zero()),
            size: Vec2::zero(),
            capsule: true,
            stroke_color: Color::none(),
            stroke_size: Fixed::zero(),
        }
    }

    /// A rectangle with sharp corners, without outline.
    pub fn rect(color: Color) -> (r: RoundedRectangleMaterial)
        ensures
            r == (RoundedRectangleMaterial {
                color,
                corners: Corners::splat(Fixed::zero()),
                size: Vec2::zero(),
                capsule: false,
                stroke_color: Color::none(),
                stroke_size: Fixed::zero(),
            }),
    {
        RoundedRectangleMaterial {
            color,
            corners: Corners::splat(Fixed::zero()),
            size: Vec2::zero(),
            capsule: false,
            stroke_color: Color::none(),
            stroke_size: Fixed::zero(),
        }
    }

    /// The same shape with an outline of the given colour and width.
    pub fn with_stroke(self, color: Color, size: Fixed) -> (r: RoundedRectangleMaterial)
        ensures
            r == (RoundedRectangleMaterial { stroke_color: color, stroke_size: size, ..self }),
    {
        RoundedRectangleMaterial { stroke_color: color, stroke_size: size, ..self }
    }
}

/// Brings the material of a shape up to the node: its size, and its fill and
/// outline colours faded by the node's opacity. Tells whether anything
/// changed.
pub fn sync_rounded_rect(
    asset: &mut RoundedRectangleMaterial,
    dimension: &DimensionData,
    fill: &Coloring,
    stroke: &StrokeColoring,
    opacity: &Opacity,
) -> (changed: bool)
    ensures
        *final(asset) == (RoundedRectangleMaterial {
            size: dimension.size,
            color: fill.color.with_a(fill.color.alpha.times(opacity.computed_opacity)),
            stroke_color: stroke.color.with_a(stroke.color.alpha.times(opacity.computed_opacity)),
            ..*old(asset)
        }),
        changed == (*final(asset) != *old(asset)),
{
    let fill = fill.color.with_a(fill.color.alpha.times(opacity.get()));
    let stroke = stroke.color.with_a(stroke.color.alpha.times(opacity.get()));
    if asset.size != dimension.size || asset.color != fill || asset.stroke_color != stroke {
        asset.size = dimension.size;
        asset.color = fill;
        asset.stroke_color = stroke;
        true
    } else {
        false
    }
}

/// Brings the material of a shadow up to the node: its size, and its colour
/// faded by the square of the node's opacity. Tells whether anything changed.
pub fn sync_rounded_shadow(
    asset: &mut RoundedShadowMaterial,
    dimension: &DimensionData,
    color: &Coloring,
    opacity: &Opacity,
) -> (changed: bool)
    ensures
        *final(asset) == (RoundedShadowMaterial {
            size: dimension.size,
            color: color.color.with_a(
                color.color.alpha.times(
                    opacity.computed_opacity.times(opacity.computed_opacity),
                ),
            ),
            ..*old(asset)
        }),
        changed == (*final(asset) != *old(asset)),
{
    let faded = color.color.with_a(color.color.alpha.times(opacity.get().times(opacity.get())));
    if asset.size != dimension.size || asset.color != faded {
        asset.size = dimension.size;
        asset.color = faded;
        true
    } else {
        false
    }
}

/// Brings the outline of a shape up to the animated outline colour. Nothing
/// else of the shape is touched, and the outline is written only where it
/// differs; the result tells whether it was.
pub fn interpolate_stroke_color(asset: &mut RoundedRectangleMaterial, animated: Color) -> (changed:
    bool)
    ensures
        changed == (old(asset).stroke_color != animated),
        *final(asset) == (RoundedRectangleMaterial { stroke_color: animated, ..*old(asset) }),
{
    if asset.stroke_color != animated {
        asset.stroke_color = animated;
        true
    } else {
        false
    }
}

} // verus!
