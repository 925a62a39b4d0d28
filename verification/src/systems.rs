//! The per-node steps that keep what is drawn in line with what was
//! resolved. Each takes the values of one node and gives the values to write
//! back; walking the nodes is left to the host.

use vstd::prelude::*;
use crate::fixed::Fixed;
use crate::vec2::Vec2;
use crate::rect::{Anchor, RotatedRect, Rotation};
use crate::dimension::{Dimension, DimensionData};
use crate::transform::Transform2D;
use crate::anim::interpolate::{Color, Coloring, Opacity, Visibility};

verus! {

/// Marks a node whose text bounds are not to follow its size.
#[derive(Debug, Clone, Copy, PartialEq, Eq, Structural)]
pub struct OptOutTextBoundsSync;

/// Marks a node whose text is not to follow its font size.
#[derive(Debug, Clone, Copy, PartialEq, Eq, Structural)]
pub struct OptOutFontSizeSync;

/// The anchor of a sprite as the host names it.
#[derive(Debug, Clone, Copy, PartialEq, Eq, Structural)]
pub enum SpriteAnchor {
    Center,
    BottomLeft,
    BottomCenter,
    BottomRight,
    CenterLeft,
    CenterRight,
    TopLeft,
    TopCenter,
    TopRight,
    /// Any other point, as a fraction of the size from the centre.
    Custom(Vec2),
}

/// The name that the host has for an anchor: one of the nine named points
/// where the anchor is one of them, the centre where it defers, and the point
/// itself otherwise.
pub open spec fn spec_copy_anchor(anchor: Anchor) -> SpriteAnchor {
    match anchor {
        Anchor::Inherit => SpriteAnchor::Center,
        Anchor::At(v) => if v.x@ == 0 && v.y@ == 0 {
            SpriteAnchor::Center
        } else if v.x@ == -500_000 && v.y@ == -500_000 {
            SpriteAnchor::BottomLeft
        } else if v.x@ == 0 && v.y@ == -500_000 {
            SpriteAnchor::BottomCenter
        } else if v.x@ == 500_000 && v.y@ == -500_000 {
            SpriteAnchor::BottomRight
        } else if v.x@ == -500_000 && v.y@ == 0 {
            SpriteAnchor::CenterLeft
        } else if v.x@ == 500_000 && v.y@ == 0 {
            SpriteAnchor::CenterRight
        } else if v.x@ == -500_000 && v.y@ == 500_000 {
            SpriteAnchor::TopLeft
        } else if v.x@ == 0 && v.y@ == 500_000 {
            SpriteAnchor::TopCenter
        } else if v.x@ == 500_000 && v.y@ == 500_000 {
            SpriteAnchor::TopRight
        } else {
            SpriteAnchor::Custom(v)
        },
    }
}

/// The name that the host has for an anchor; see [`spec_copy_anchor`].
#[verifier::when_used_as_spec(spec_copy_anchor)]
pub fn copy_anchor(anchor: Anchor) -> (r: SpriteAnchor)
    ensures
        r == spec_copy_anchor(anchor),
{
    match anchor {
        Anchor::Inherit => SpriteAnchor::Center,
        Anchor::At(v) => {
            let x: i64 = v.x.raw;
            let y: i64 = v.y.raw;
            if x == 0 && y == 0 {
                SpriteAnchor::Center
            } else if x == -500_000 && y == -500_000 {
                SpriteAnchor::BottomLeft
            } else if x == 0 && y == -500_000 {
                SpriteAnchor::BottomCenter
            } else if x == 500_000 && y == -500_000 {
                SpriteAnchor::BottomRight
            } else if x == -500_000 && y == 0 {
                SpriteAnchor::CenterLeft
            } else if x == 500_000 && y == 0 {
                SpriteAnchor::CenterRight
            } else if x == -500_000 && y == 500_000 {
                SpriteAnchor::TopLeft
            } else if x == 0 && y == 500_000 {
                SpriteAnchor::TopCenter
            } else if x == 500_000 && y == 500_000 {
                SpriteAnchor::TopRight
            } else {
                SpriteAnchor::Custom(v)
            }
        },
    }
}

/// The natural size of a text, taken where the sizing of its node has use
/// for it.
pub fn copy_dimension_text(dimension: Dimension, data: &mut DimensionData, logical_size: Vec2)
    ensures
        *final(data) == if dimension.spec_wants_measure() {
            dimension.spec_measured(*old(data), logical_size)
        } else {
            *old(data)
        },
{
    let measure = || -> (m: Vec2)
        ensures
            m == logical_size,
        { logical_size };
    dimension.update_size(data, measure);
}

/// An axis-aligned rectangle in an image.
#[derive(Debug, Clone, Copy, PartialEq, Eq, Structural)]
pub struct Rect {
    /// The corner of the least coordinates.
    pub min: Vec2,
    /// The corner of the greatest coordinates.
    pub max: Vec2,
}

impl Rect {
    /// Width and height.
    pub open spec fn spec_size(self) -> Vec2 {
        self.max.minus(self.min)
    }

    /// Width and height.
    #[verifier::when_used_as_spec(spec_size)]
    pub fn size(self) -> (r: Vec2)
        ensures
            r == self.spec_size(),
    {
        self.max.minus(self.min)
    }
}

/// The natural size of a sprite on screen: that of the part of the image it
/// shows, or of the whole image, or nothing while the image is not there;
/// times the scaling factor of the window.
pub fn copy_dimension_sprite(rect: Option<Rect>, image: Option<Vec2>, scaling_factor: Fixed) -> (r:
    Vec2)
    ensures
        r == (match rect {
            Some(part) => part.spec_size(),
            None => match image {
                Some(size) => size,
                None => Vec2::zero(),
            },
        }).scaled(scaling_factor),
{
    let pixels = match rect {
        Some(part) => part.size(),
        None => match image {
            Some(size) => size,
            None => Vec2::zero(),
        },
    };
    pixels.scaled(scaling_factor)
}

/// The natural size of a frame of a sheet on screen: that of the frame at
/// `index`, or nothing while the sheet is not there or has no such frame;
/// divided by the scaling factor of the window.
pub fn copy_dimension_atlas(textures: Option<&Vec<Rect>>, index: usize, scaling_factor: Fixed)
    -> (r: Vec2)
    ensures
        r == (if textures is Some && index < textures->0@.len() {
            textures->0@[index as int].spec_size()
        } else {
            Vec2::zero()
        }).over(Vec2::splat(scaling_factor)),
{
    let pixels = match textures {
        Some(list) => if index < list.len() {
            list[index].size()
        } else {
            Vec2::zero()
        },
        None => Vec2::zero(),
    };
    pixels.over(Vec2::splat(scaling_factor))
}

/// The size to draw a sprite at: the resolved size of its node, unless the
/// node copies its size from the sprite. Nothing comes back where the sprite
/// has that size already or is the source of the size.
pub fn sync_dimension_sprite(dimension: &Dimension, data: &DimensionData, custom: Option<Vec2>)
    -> (r: Option<Vec2>)
    ensures
        r == if !dimension.spec_is_copied() && custom != Some(data.size) {
            Some(data.size)
        } else {
            None
        },
{
    if dimension.is_copied() {
        return None;
    }
    match custom {
        Some(size) => if size == data.size {
            None
        } else {
            Some(data.size)
        },
        None => Some(data.size),
    }
}

/// The bounds to lay text out in: the resolved size of its node, unless the
/// node copies its size from the text. Nothing comes back where the bounds
/// are that size already or the text is the source of the size.
pub fn sync_dimension_text_bounds(dimension: &Dimension, data: &DimensionData, bounds: Vec2) -> (r:
    Option<Vec2>)
    ensures
        r == if !dimension.spec_is_copied() && bounds != data.size {
            Some(data.size)
        } else {
            None
        },
{
    if !dimension.is_copied() && bounds != data.size {
        Some(data.size)
    } else {
        None
    }
}

/// Marks a node as covered.
pub fn set_occluded(opacity: &mut Opacity)
    ensures
        *final(opacity) == (Opacity { occluded: true, ..*old(opacity) }),
{
    opacity.occluded = true;
}

/// Whether the font sizes of the sections of a text have to be written: one
/// of them is not the font size of the node.
pub fn sync_em_text(sizes: &Vec<Fixed>, data: &DimensionData) -> (r: bool)
    ensures
        r == exists|i: int| 0 <= i < sizes@.len() && #[trigger] sizes@[i] != data.em,
{
    let mut i: usize = 0;
    while i < sizes.len()
        invariant
            i <= sizes.len(),
            forall|j: int| 0 <= j < i ==> #[trigger] sizes@[j] == data.em,
        decreases sizes.len() - i,
    {
        if sizes[i] != data.em {
            return true;
        }
        i += 1;
    }
    false
}

/// The visibility to give a node, if it has to change.
pub fn sync_opacity_vis(opacity: &Opacity, current: Visibility) -> (r: Option<Visibility>)
    ensures
        r == ({
            let wanted = if opacity.computed_opacity@ <= 0 {
                Visibility::Hidden
            } else {
                Visibility::Inherited
            };
            if current == wanted {
                None
            } else {
                Some(wanted)
            }
        }),
{
    let wanted = opacity.visibility();
    if current == wanted {
        None
    } else {
        Some(wanted)
    }
}

/// The colour to draw the sprite of a node in, if it has to change: the
/// node's colour faded by its opacity.
pub fn sync_opacity_sprite(color: &Coloring, opacity: &Opacity, current: Color) -> (r: Option<
    Color,
>)
    ensures
        r == ({
            let wanted = color.color.with_a(color.color.alpha.times(opacity.computed_opacity));
            if current == wanted {
                None
            } else {
                Some(wanted)
            }
        }),
{
    let wanted = color.faded(opacity);
    if current == wanted {
        None
    } else {
        Some(wanted)
    }
}

/// The colour to draw the text of a node in, if it has to change: the node's
/// colour faded by its opacity, where a section has another colour.
pub fn sync_opacity_text(color: &Coloring, opacity: &Opacity, sections: &Vec<Color>) -> (r:
    Option<Color>)
    ensures
        r == ({
            let wanted = color.color.with_a(color.color.alpha.times(opacity.computed_opacity));
            if exists|i: int| 0 <= i < sections@.len() && #[trigger] sections@[i] != wanted {
                Some(wanted)
            } else {
                None
            }
        }),
{
    let wanted = color.faded(opacity);
    let mut i: usize = 0;
    while i < sections.len()
        invariant
            i <= sections.len(),
            wanted == color.color.with_a(color.color.alpha.times(opacity.computed_opacity)),
            forall|j: int| 0 <= j < i ==> #[trigger] sections@[j] == wanted,
        decreases sections.len() - i,
    {
        if sections[i] != wanted {
            return Some(wanted);
        }
        i += 1;
    }
    None
}

/// Where the host draws a node.
#[derive(Debug, Clone, Copy, PartialEq, Eq, Structural)]
pub struct GlobalPlacement {
    /// The factors to scale by.
    pub scale: Vec2,
    /// The rotation.
    pub rotation: Rotation,
    /// The position in the plane.
    pub position: Vec2,
    /// The depth.
    pub z: Fixed,
}

/// Where the host draws the mesh of a node: a unit square scaled to the size
/// of the node, turned with it and put at its centre.
pub fn build_mesh_2d_global_transform(rect: &RotatedRect, dim: &DimensionData) -> (r:
    GlobalPlacement)
    ensures
        r == (GlobalPlacement {
            scale: rect.scale.times(dim.size),
            rotation: rect.rotation,
            position: rect.spec_anchor(Anchor::preset(0, 0)),
            z: rect.z,
        }),
{
    GlobalPlacement {
        scale: rect.scale.times(dim.size),
        rotation: rect.rotation,
        position: rect.anchor(Anchor::center()),
        z: rect.z,
    }
}

/// Where the host draws what hangs on a node: scaled and turned with the
/// node and put at the anchor `build`, or at the node's own anchor if `build`
/// defers.
pub fn build_global_transform(build: Anchor, transform: &Transform2D, rect: &RotatedRect) -> (r:
    GlobalPlacement)
    ensures
        r == (GlobalPlacement {
            scale: rect.scale,
            rotation: rect.rotation,
            position: rect.spec_anchor(build.spec_or(transform.anchor)),
            z: rect.z,
        }),
{
    GlobalPlacement {
        scale: rect.scale,
        rotation: rect.rotation,
        position: rect.anchor(build.or(transform.anchor)),
        z: rect.z,
    }
}

/// The children among the first `k` that carry the component asked for, in
/// order. Each child comes with the answer whether it carries it.
pub open spec fn children_with(children: Seq<(crate::events::cursor::NodeId, bool)>, k: int) -> Seq<
    crate::events::cursor::NodeId,
>
    decreases k,
{
    if k <= 0 {
        Seq::empty()
    } else if children[k - 1].1 {
        children_with(children, k - 1).push(children[k - 1].0)
    } else {
        children_with(children, k - 1)
    }
}

/// The children to remove with all that hangs on them: those that carry the
/// component asked for.
pub fn despawn_children_with(children: &Vec<(crate::events::cursor::NodeId, bool)>) -> (r: Vec<
    crate::events::cursor::NodeId,
>)
    ensures
        r@ == children_with(children@, children@.len() as int),
{
    let mut out: Vec<crate::events::cursor::NodeId> = Vec::new();
    let mut i: usize = 0;
    while i < children.len()
        invariant
            i <= children.len(),
            out@ == children_with(children@, i as int),
        decreases children.len() - i,
    {
        let child = children[i];
        if child.1 {
            out.push(child.0);
        }
        i += 1;
    }
    out
}

/// The anchor to build a transform at.
#[derive(Debug, Clone, Copy, PartialEq, Eq, Structural)]
pub struct BuildTransform(pub Anchor);

/// The marker for building a transform at the anchor `anc`.
pub fn build_transform_at(anc: Anchor) -> (r: BuildTransform)
    ensures
        r == BuildTransform(anc),
{
    BuildTransform(anc)
}

} // verus!
