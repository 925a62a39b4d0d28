//! Sheets of frames, built once their images are there.

use vstd::prelude::*;
use crate::fixed::Fixed;
use crate::vec2::Vec2;
use crate::systems::Rect;

verus! {

/// The counts of the gaps between `columns` by `rows` cells.
pub open spec fn spec_gaps(columns: u32, rows: u32) -> Vec2 {
    Vec2 {
        x: Fixed::from_u32(
            if columns == 0 {
                0u32
            } else {
                (columns - 1) as u32
            },
        ),
        y: Fixed::from_u32(
            if rows == 0 {
                0u32
            } else {
                (rows - 1) as u32
            },
        ),
    }
}

/// The size of one cell of an image of the size `image` that is cut into
/// `columns` by `rows` cells with `padding` between neighbours: the image
/// less the paddings, divided evenly.
pub open spec fn spec_cell_size(image: Vec2, columns: u32, rows: u32, padding: Vec2) -> Vec2 {
    let counts = Vec2 { x: Fixed::from_u32(columns), y: Fixed::from_u32(rows) };
    image.minus(padding.times(spec_gaps(columns, rows))).over(counts)
}

/// The size of one cell of an image cut into a grid; see [`spec_cell_size`].
#[verifier::when_used_as_spec(spec_cell_size)]
pub fn cell_size(image: Vec2, columns: u32, rows: u32, padding: Vec2) -> (r: Vec2)
    ensures
        r == spec_cell_size(image, columns, rows, padding),
{
    let gap_x: u32 = if columns == 0 {
        0
    } else {
        columns - 1
    };
    let gap_y: u32 = if rows == 0 {
        0
    } else {
        rows - 1
    };
    let gaps = Vec2 { x: Fixed::from_u32(gap_x), y: Fixed::from_u32(gap_y) };
    let counts = Vec2 { x: Fixed::from_u32(columns), y: Fixed::from_u32(rows) };
    image.minus(padding.times(gaps)).over(counts)
}

/// A sheet of frames that waits for its images before it is built. `H` is
/// the handle by which the host knows an image.
#[derive(Debug, Clone, PartialEq)]
pub enum DeferredAtlasBuilder<H> {
    /// One image cut into a grid of columns and rows.
    Subdivide { image: H, columns: u32, rows: u32, padding: Option<Vec2> },
    /// Several images packed into one.
    Images(Vec<H>),
    /// One image with the frames given as rectangles in it.
    Rectangles { image: H, rectangles: Vec<Rect> },
}

/// How to build a sheet of frames.
#[derive(Debug, Clone, PartialEq)]
pub enum AtlasPlan<H> {
    /// Cut `image` into a grid.
    Grid { image: H, cell: Vec2, columns: u32, rows: u32, padding: Option<Vec2> },
    /// Pack the images into one.
    Pack(Vec<H>),
    /// Take the rectangles as the frames of `image`, which has the size
    /// `size`.
    Frames { image: H, size: Vec2, rectangles: Vec<Rect> },
}

impl<H> DeferredAtlasBuilder<H> {
    /// Whether the sheet is built from a single image.
    pub open spec fn needs_size(self) -> bool {
        !(self is Images)
    }

    /// How to build the sheet, once what it waits for is there: a sheet made
    /// of one image waits for the size of that image, a sheet packed from
    /// several waits until all of them are loaded. Until then the builder
    /// comes back unchanged, to be asked again in the next frame.
    pub fn plan(self, image_size: Option<Vec2>, all_loaded: bool) -> (r: Result<
        AtlasPlan<H>,
        DeferredAtlasBuilder<H>,
    >)
        ensures
            match self {
                DeferredAtlasBuilder::Subdivide { image, columns, rows, padding } => match image_size {
                    Some(size) => r == Ok::<AtlasPlan<H>, DeferredAtlasBuilder<H>>(
                        AtlasPlan::Grid {
                            image,
                            cell: spec_cell_size(
                                size,
                                columns,
                                rows,
                                match padding {
                                    Some(p) => p,
                                    None => Vec2::zero(),
                                },
                            ),
                            columns,
                            rows,
                            padding,
                        },
                    ),
                    None => r == Err::<AtlasPlan<H>, DeferredAtlasBuilder<H>>(self),
                },
                DeferredAtlasBuilder::Images(images) => if all_loaded {
                    r == Ok::<AtlasPlan<H>, DeferredAtlasBuilder<H>>(AtlasPlan::Pack(images))
                } else {
                    r == Err::<AtlasPlan<H>, DeferredAtlasBuilder<H>>(self)
                },
                DeferredAtlasBuilder::Rectangles { image, rectangles } => match image_size {
                    Some(size) => r == Ok::<AtlasPlan<H>, DeferredAtlasBuilder<H>>(
                        AtlasPlan::Frames { image, size, rectangles },
                    ),
                    None => r == Err::<AtlasPlan<H>, DeferredAtlasBuilder<H>>(self),
                },
            },
    {
        match self {
            DeferredAtlasBuilder::Subdivide { image, columns, rows, padding } => match image_size {
                Some(size) => {
                    let gap = match padding {
                        Some(p) => p,
                        None => Vec2::zero(),
                    };
                    Ok(
                        AtlasPlan::Grid {
                            image,
                            cell: cell_size(size, columns, rows, gap),
                            columns,
                            rows,
                            padding,
                        },
                    )
                },
                None => Err(DeferredAtlasBuilder::Subdivide { image, columns, rows, padding }),
            },
            DeferredAtlasBuilder::Images(images) => {
                if all_loaded {
                    Ok(AtlasPlan::Pack(images))
                } else {
                    Err(DeferredAtlasBuilder::Images(images))
                }
            },
            DeferredAtlasBuilder::Rectangles { image, rectangles } => match image_size {
                Some(size) => Ok(AtlasPlan::Frames { image, size, rectangles }),
                None => Err(DeferredAtlasBuilder::Rectangles { image, rectangles }),
            },
        }
    }
}

/// The number of bytes of a render target of `width` by `height` pixels with
/// four bytes each, if that number can be held.
pub fn render_target_bytes(width: u32, height: u32) -> (r: Option<usize>)
    ensures
        r == if width as int * height as int * 4 <= usize::MAX {
            Some((width as int * height as int * 4) as usize)
        } else {
            None
        },
{
    let w: u128 = width as u128;
    let h: u128 = height as u128;
    assert(w * h <= 0xffff_ffff * 0xffff_ffff) by (nonlinear_arith)
        requires
            w <= 0xffff_ffff,
            h <= 0xffff_ffff,
    ;
    let wide: u128 = w * h * 4;
    if wide <= usize::MAX as u128 {
        Some(wide as usize)
    } else {
        None
    }
}

} // verus!
