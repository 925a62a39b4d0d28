//! The size of a node: given by the node itself, measured by somebody else,
//! or copied from what the node shows.

use vstd::prelude::*;
use crate::fixed::Fixed;
use crate::vec2::Vec2;
use crate::scaling::{FontSize, Size2};

verus! {

/// Where the size of a node comes from.
#[derive(Clone, Copy, Debug, PartialEq, Eq, Structural)]
pub enum DimensionType {
    /// The natural size of what the node shows: an image, a line of text.
    Copied,
    /// Computed by somebody else, such as the layout the node contains.
    Dynamic,
    /// Stated by the node.
    Owned(Size2),
}

/// The sizing of a node as declared.
#[derive(Clone, Copy, Debug, PartialEq, Eq, Structural)]
pub struct Dimension {
    /// Where the size comes from.
    pub dimension: DimensionType,
    /// The font size the node asks for.
    pub font_size: FontSize,
    /// Whether an owned size keeps the proportions of the natural size: the
    /// width is as stated and the height follows from it.
    pub preserve_aspect: bool,
}

/// The sizing of a node as resolved for one frame.
#[derive(Clone, Copy, Debug, PartialEq, Eq, Structural)]
pub struct DimensionData {
    /// Width and height in pixels.
    pub size: Vec2,
    /// The font size in pixels.
    pub em: Fixed,
    /// Width over height of the natural size last measured; zero while none
    /// was measured.
    pub aspect: Fixed,
}

impl Default for DimensionData {
    fn default() -> (r: DimensionData)
        ensures
            r == (DimensionData { size: Vec2::zero(), em: Fixed::zero(), aspect: Fixed::zero() }),
    {
        DimensionData { size: Vec2::zero(), em: Fixed::zero(), aspect: Fixed::zero() }
    }
}

impl Dimension {
    /// A size copied from what the node shows.
    pub fn copied() -> (r: Dimension)
        ensures
            r == (Dimension {
                dimension: DimensionType::Copied,
                font_size: FontSize::Inherit,
                preserve_aspect: false,
            }),
    {
        Dimension {
            dimension: DimensionType::Copied,
            font_size: FontSize::Inherit,
            preserve_aspect: false,
        }
    }

    /// A size computed by somebody else.
    pub fn dynamic() -> (r: Dimension)
        ensures
            r == (Dimension {
                dimension: DimensionType::Dynamic,
                font_size: FontSize::Inherit,
                preserve_aspect: false,
            }),
    {
        Dimension {
            dimension: DimensionType::Dynamic,
            font_size: FontSize::Inherit,
            preserve_aspect: false,
        }
    }

    /// The size `size`, stated by the node.
    pub fn owned(size: Size2) -> (r: Dimension)
        ensures
            r == (Dimension {
                dimension: DimensionType::Owned(size),
                font_size: FontSize::Inherit,
                preserve_aspect: false,
            }),
    {
        Dimension {
            dimension: DimensionType::Owned(size),
            font_size: FontSize::Inherit,
            preserve_aspect: false,
        }
    }

    /// The same sizing with the font size `font_size`.
    pub fn with_em(self, font_size: FontSize) -> (r: Dimension)
        ensures
            r == (Dimension { font_size, ..self }),
    {
        Dimension { font_size, ..self }
    }

    /// The same sizing, keeping the natural proportions or not.
    pub fn with_preserve_aspect(self, preserve_aspect: bool) -> (r: Dimension)
        ensures
            r == (Dimension { preserve_aspect, ..self }),
    {
        Dimension { preserve_aspect, ..self }
    }

    /// Whether the size is stated by the node.
    pub open spec fn spec_is_owned(&self) -> bool {
        self.dimension is Owned
    }

    /// Whether the size is stated by the node.
    #[verifier::when_used_as_spec(spec_is_owned)]
    pub fn is_owned(&self) -> (r: bool)
        ensures
            r == self.spec_is_owned(),
    {
        matches!(self.dimension, DimensionType::Owned(_))
    }

    /// Whether the size is copied from what the node shows.
    pub open spec fn spec_is_copied(&self) -> bool {
        self.dimension is Copied
    }

    /// Whether the size is copied from what the node shows.
    #[verifier::when_used_as_spec(spec_is_copied)]
    pub fn is_copied(&self) -> (r: bool)
        ensures
            r == self.spec_is_copied(),
    {
        matches!(self.dimension, DimensionType::Copied)
    }

    /// The numbers of an owned size, whatever their units. Only an owned size
    /// has any.
    pub fn raw(&self) -> (r: Vec2)
        requires
            self.spec_is_owned(),
        ensures
            self.dimension == DimensionType::Owned(Size2::of(
                self.dimension->Owned_0.x,
                self.dimension->Owned_0.y,
                r,
            )),
    {
        match self.dimension {
            DimensionType::Owned(v) => v.raw(),
            _ => vstd::pervasive::unreached(),
        }
    }

    /// Replaces the numbers of an owned size; the units stay. Any other size
    /// is left as it is.
    pub fn set_raw(&mut self, value: Vec2)
        ensures
            *final(self) == (Dimension {
                dimension: match old(self).dimension {
                    DimensionType::Owned(v) => DimensionType::Owned(Size2::of(v.x, v.y, value)),
                    other => other,
                },
                ..*old(self)
            }),
    {
        match self.dimension {
            DimensionType::Owned(v) => {
                self.dimension = DimensionType::Owned(Size2 { x: v.x, y: v.y, raw: value });
            },
            _ => {},
        }
    }

    /// The height that goes with the width `width` at the ratio `aspect` of
    /// width to height.
    pub open spec fn spec_height_for(width: Fixed, aspect: Fixed) -> Fixed {
        width.over(aspect)
    }

    /// The resolved sizing for one frame.
    ///
    /// The font size is resolved against the parent's. An owned size is
    /// converted from its units, with the parent's size and the new font
    /// size; if it keeps the natural proportions and a natural size was
    /// measured, its height is the width over the measured ratio. Any other
    /// size is the one last measured, taken from `data` as it is.
    pub open spec fn spec_estimate(
        self,
        data: DimensionData,
        parent: Vec2,
        parent_em: Fixed,
        rem: Fixed,
    ) -> DimensionData {
        let em = self.font_size.resolve(parent_em, rem);
        match self.dimension {
            DimensionType::Owned(v) => {
                let stated = v.as_pixels(parent, em, rem);
                let size = if self.preserve_aspect && data.aspect@ != 0 {
                    Vec2 { x: stated.x, y: Dimension::spec_height_for(stated.x, data.aspect) }
                } else {
                    stated
                };
                DimensionData { size, em, aspect: data.aspect }
            },
            _ => DimensionData { size: data.size, em, aspect: data.aspect },
        }
    }

    /// The resolved sizing for one frame; see [`Dimension::spec_estimate`].
    #[verifier::when_used_as_spec(spec_estimate)]
    pub fn estimate(self, data: DimensionData, parent: Vec2, parent_em: Fixed, rem: Fixed) -> (r:
        DimensionData)
        ensures
            r == self.spec_estimate(data, parent, parent_em, rem),
    {
        let em = self.font_size.resolve(parent_em, rem);
        match self.dimension {
            DimensionType::Owned(v) => {
                let stated = v.as_pixels(parent, em, rem);
                let size = if self.preserve_aspect && data.aspect.raw != 0 {
                    Vec2 { x: stated.x, y: stated.x.over(data.aspect) }
                } else {
                    stated
                };
                DimensionData { size, em, aspect: data.aspect }
            },
            _ => DimensionData { size: data.size, em, aspect: data.aspect },
        }
    }

    /// The sizing data after the natural size `measured` was taken.
    ///
    /// A copied size becomes the measured one. An owned size that keeps the
    /// natural proportions records the measured ratio of width to height. A
    /// dynamic size is not touched: whoever computes it writes it.
    pub open spec fn spec_measured(self, data: DimensionData, measured: Vec2) -> DimensionData {
        match self.dimension {
            DimensionType::Copied => DimensionData {
                size: measured,
                aspect: measured.x.over(measured.y),
                ..data
            },
            DimensionType::Owned(_) => if self.preserve_aspect {
                DimensionData { aspect: measured.x.over(measured.y), ..data }
            } else {
                data
            },
            DimensionType::Dynamic => data,
        }
    }

    /// Whether the natural size is of any use to this sizing.
    pub open spec fn spec_wants_measure(self) -> bool {
        self.dimension is Copied || (self.dimension is Owned && self.preserve_aspect)
    }

    /// Takes the natural size from `measure` where it is of use, and only
    /// then calls it; see [`Dimension::spec_measured`].
    pub fn update_size<F: FnOnce() -> Vec2>(self, data: &mut DimensionData, measure: F)
        requires
            self.spec_wants_measure() ==> measure.requires(()),
        ensures
            self.spec_wants_measure() ==> exists|m: Vec2|
                measure.ensures((), m) && *final(data) == self.spec_measured(*old(data), m),
            !self.spec_wants_measure() ==> *final(data) == *old(data),
    {
        let ghost before = *data;
        match self.dimension {
            DimensionType::Copied => {
                let m = measure();
                data.size = m;
                data.aspect = m.x.over(m.y);
                assert(measure.ensures((), m) && *data == self.spec_measured(before, m));
            },
            DimensionType::Owned(_) => {
                if self.preserve_aspect {
                    let m = measure();
                    data.aspect = m.x.over(m.y);
                    assert(measure.ensures((), m) && *data == self.spec_measured(before, m));
                }
            },
            DimensionType::Dynamic => {},
        }
    }
}

impl Default for Dimension {
    fn default() -> (r: Dimension)
        ensures
            r == (Dimension {
                dimension: DimensionType::Copied,
                font_size: FontSize::Inherit,
                preserve_aspect: false,
            }),
    {
        Dimension {
            dimension: DimensionType::Copied,
            font_size: FontSize::Inherit,
            preserve_aspect: false,
        }
    }
}

/// A measured size is never overwritten by resolution: for a size that is
/// not owned, what was measured last is what the frame gets, whatever the
/// parent and the font sizes are.
pub proof fn lemma_measured_size_stays(
    dimension: Dimension,
    data: DimensionData,
    measured: Vec2,
    parent: Vec2,
    parent_em: Fixed,
    rem: Fixed,
)
    requires
        dimension.dimension is Copied,
    ensures
        dimension.estimate(dimension.spec_measured(data, measured), parent, parent_em, rem).size
            == measured,
{
}

} // verus!
