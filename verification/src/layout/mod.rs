//! Containers and the algorithms that place their children.
//!
//! A layout works in its own space: the main axis runs in the direction of
//! the layout, from the edge where the first child sits; the cross axis runs
//! across it. Every algorithm takes the sizes of the children that take part
//! and gives, for each, the distance of its leading edges from the leading
//! edges of the container, together with the size that the children need.
//! [`center_of`] carries a placement back into the plane.

pub mod select;
pub mod stack;
pub mod paragraph;
pub mod container;

use vstd::prelude::*;
use crate::fixed::Fixed;
use crate::vec2::Vec2;

verus! {

/// Where children sit across the axis of a layout.
#[derive(Debug, Clone, Copy, PartialEq, Eq, Structural)]
pub enum Alignment {
    Center,
    Left,
    Right,
    Top,
    Bottom,
}

/// The direction in which a layout places its children.
#[derive(Debug, Clone, Copy, PartialEq, Eq, Structural)]
pub enum LayoutDir {
    LeftToRight,
    RightToLeft,
    TopToBottom,
    BottomToTop,
}

/// What a child means to the layout of its container.
#[derive(Debug, Clone, Copy, PartialEq, Eq, Structural)]
pub enum LayoutControl {
    /// The child is placed like any other.
    Normal,
    /// The child takes no part in the layout.
    IgnoreLayout,
    /// The child ends the line; it takes no room along the line, and its
    /// height is the least that the line gets.
    Linebreak,
}

/// A child as a layout sees it.
#[derive(Debug, Clone, Copy, PartialEq, Eq, Structural)]
pub struct LayoutItem {
    /// Width and height that the child asks for.
    pub size: Vec2,
    /// What the child means to the layout.
    pub control: LayoutControl,
}

/// The part of the children that take part in a layout: of those that do not
/// opt out, the ones from position `start` on, `count` at most.
#[derive(Debug, Clone, Copy, PartialEq, Eq, Structural)]
pub struct LayoutRange {
    /// How many children to pass over.
    pub start: usize,
    /// How many children to place at most.
    pub count: usize,
}

/// Where a child was placed, in the space of the layout.
#[derive(Debug, Clone, Copy, PartialEq, Eq, Structural)]
pub struct Placed {
    /// The position of the child among all children of the container.
    pub index: usize,
    /// Distance of the child's leading edge from the container's, along the
    /// main axis.
    pub main: Fixed,
    /// Distance of the child's first edge from the container's, across.
    pub cross: Fixed,
}

/// Where to put a child whose room across the axis is larger than itself.
#[derive(Debug, Clone, Copy, PartialEq, Eq, Structural)]
pub enum CrossAlign {
    /// At the first edge.
    Start,
    /// In the middle.
    Middle,
    /// At the far edge.
    End,
}

/// What to do with children that do not fit a container of fixed size.
#[derive(Debug, Clone, Copy, PartialEq, Eq, Structural)]
pub enum Overflow {
    /// They are placed beyond the far edge.
    Visible,
    /// They and all that follow are left out.
    Clip,
}

/// A layout algorithm with its settings.
#[derive(Debug, Clone, Copy, PartialEq, Eq, Structural)]
pub enum Layout {
    /// Children end to end along one axis; the container is as large as they
    /// need.
    Stack { direction: LayoutDir, align: CrossAlign },
    /// Children end to end along one axis in a container of given size.
    Span { direction: LayoutDir, align: CrossAlign, overflow: Overflow },
    /// Children in lines that wrap at the container's width.
    Paragraph { direction: LayoutDir },
    /// One child, set in from the container's edges.
    Padding,
}

/// A container: the layout of its children and the space around them.
#[derive(Debug, Clone, Copy, PartialEq, Eq, Structural)]
pub struct Container {
    /// The algorithm.
    pub layout: Layout,
    /// Space between neighbouring children, along and across.
    pub margin: Vec2,
    /// Space between the container's edges and the children, along and
    /// across.
    pub padding: Vec2,
    /// The children that take part.
    pub range: LayoutRange,
}

impl LayoutDir {
    /// Whether the main axis is the horizontal one.
    pub open spec fn spec_is_horizontal(self) -> bool {
        self is LeftToRight || self is RightToLeft
    }

    /// Whether the main axis is the horizontal one.
    #[verifier::when_used_as_spec(spec_is_horizontal)]
    pub fn is_horizontal(self) -> (r: bool)
        ensures
            r == self.spec_is_horizontal(),
    {
        matches!(self, LayoutDir::LeftToRight | LayoutDir::RightToLeft)
    }

    /// The extent of `size` along the main axis.
    pub open spec fn spec_main_of(self, size: Vec2) -> Fixed {
        if self.spec_is_horizontal() {
            size.x
        } else {
            size.y
        }
    }

    /// The extent of `size` along the main axis.
    #[verifier::when_used_as_spec(spec_main_of)]
    pub fn main_of(self, size: Vec2) -> (r: Fixed)
        ensures
            r == self.spec_main_of(size),
    {
        if self.is_horizontal() {
            size.x
        } else {
            size.y
        }
    }

    /// The extent of `size` across the main axis.
    pub open spec fn spec_cross_of(self, size: Vec2) -> Fixed {
        if self.spec_is_horizontal() {
            size.y
        } else {
            size.x
        }
    }

    /// The extent of `size` across the main axis.
    #[verifier::when_used_as_spec(spec_cross_of)]
    pub fn cross_of(self, size: Vec2) -> (r: Fixed)
        ensures
            r == self.spec_cross_of(size),
    {
        if self.is_horizontal() {
            size.y
        } else {
            size.x
        }
    }

    /// The size in the plane with the extent `main` along and `cross` across
    /// the main axis.
    pub open spec fn spec_compose(self, main: Fixed, cross: Fixed) -> Vec2 {
        if self.spec_is_horizontal() {
            Vec2 { x: main, y: cross }
        } else {
            Vec2 { x: cross, y: main }
        }
    }

    /// The size in the plane with the extent `main` along and `cross` across
    /// the main axis.
    #[verifier::when_used_as_spec(spec_compose)]
    pub fn compose(self, main: Fixed, cross: Fixed) -> (r: Vec2)
        ensures
            r == self.spec_compose(main, cross),
    {
        if self.is_horizontal() {
            Vec2 { x: main, y: cross }
        } else {
            Vec2 { x: cross, y: main }
        }
    }
}

/// One half.
pub open spec fn spec_half() -> Fixed {
    Fixed { raw: 500_000 }
}

/// One half.
#[verifier::when_used_as_spec(spec_half)]
pub fn half() -> (r: Fixed)
    ensures
        r == spec_half(),
{
    Fixed { raw: 500_000 }
}

/// The coordinate of the middle of a child along one axis of the plane,
/// measured from the middle of the container: the child of extent `size`
/// starts `offset` after the edge of a container of extent `extent`. Where
/// the layout runs with the axis the edge is the lower one, where it runs
/// against it the upper one.
pub open spec fn spec_along(extent: Fixed, offset: Fixed, size: Fixed, against: bool) -> Fixed {
    let from_edge = offset.plus(size.times(spec_half())).minus(extent.times(spec_half()));
    if against {
        from_edge.negated()
    } else {
        from_edge
    }
}

/// The coordinate of the middle of a child along one axis of the plane.
#[verifier::when_used_as_spec(spec_along)]
pub fn along(extent: Fixed, offset: Fixed, size: Fixed, against: bool) -> (r: Fixed)
    ensures
        r == spec_along(extent, offset, size, against),
{
    let from_edge = offset.plus(size.times(half())).minus(extent.times(half()));
    if against {
        from_edge.negated()
    } else {
        from_edge
    }
}

/// The middle of a placed child in the plane, measured from the middle of
/// the container of size `extent`. Horizontal layouts count across from the
/// top, vertical ones from the left.
pub open spec fn spec_center_of(dir: LayoutDir, extent: Vec2, main: Fixed, cross: Fixed, size: Vec2)
    -> Vec2 {
    match dir {
        LayoutDir::LeftToRight => Vec2 {
            x: spec_along(extent.x, main, size.x, false),
            y: spec_along(extent.y, cross, size.y, true),
        },
        LayoutDir::RightToLeft => Vec2 {
            x: spec_along(extent.x, main, size.x, true),
            y: spec_along(extent.y, cross, size.y, true),
        },
        LayoutDir::TopToBottom => Vec2 {
            x: spec_along(extent.x, cross, size.x, false),
            y: spec_along(extent.y, main, size.y, true),
        },
        LayoutDir::BottomToTop => Vec2 {
            x: spec_along(extent.x, cross, size.x, false),
            y: spec_along(extent.y, main, size.y, false),
        },
    }
}

/// The middle of a placed child in the plane, measured from the middle of
/// the container of size `extent`.
#[verifier::when_used_as_spec(spec_center_of)]
pub fn center_of(dir: LayoutDir, extent: Vec2, main: Fixed, cross: Fixed, size: Vec2) -> (r: Vec2)
    ensures
        r == spec_center_of(dir, extent, main, cross, size),
{
    match dir {
        LayoutDir::LeftToRight => Vec2 {
            x: along(extent.x, main, size.x, false),
            y: along(extent.y, cross, size.y, true),
        },
        LayoutDir::RightToLeft => Vec2 {
            x: along(extent.x, main, size.x, true),
            y: along(extent.y, cross, size.y, true),
        },
        LayoutDir::TopToBottom => Vec2 {
            x: along(extent.x, cross, size.x, false),
            y: along(extent.y, main, size.y, true),
        },
        LayoutDir::BottomToTop => Vec2 {
            x: along(extent.x, cross, size.x, false),
            y: along(extent.y, main, size.y, false),
        },
    }
}

/// The room left inside a container of size `available` for a child set in
/// by `padding` on every side.
pub open spec fn spec_inset(available: Vec2, padding: Vec2) -> Vec2 {
    available.minus(padding.plus(padding))
}

/// The room left inside a container of size `available` for a child set in
/// by `padding` on every side.
#[verifier::when_used_as_spec(spec_inset)]
pub fn inset(available: Vec2, padding: Vec2) -> (r: Vec2)
    ensures
        r == spec_inset(available, padding),
{
    available.minus(padding.plus(padding))
}

/// The size of a container that sets a child of size `child` in by `padding`
/// on every side.
pub open spec fn spec_outset(child: Vec2, padding: Vec2) -> Vec2 {
    child.plus(padding.plus(padding))
}

/// The size of a container that sets a child of size `child` in by `padding`
/// on every side.
#[verifier::when_used_as_spec(spec_outset)]
pub fn outset(child: Vec2, padding: Vec2) -> (r: Vec2)
    ensures
        r == spec_outset(child, padding),
{
    child.plus(padding.plus(padding))
}

} // verus!
