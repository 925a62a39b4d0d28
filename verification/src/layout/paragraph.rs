//! Children in lines that wrap.

use vstd::prelude::*;
use crate::fixed::Fixed;
use crate::vec2::Vec2;
use crate::layout::{LayoutDir, LayoutItem, Placed};
use crate::layout::stack::LayoutOutput;

verus! {

/// The settings of a paragraph.
#[derive(Debug, Clone, Copy, PartialEq, Eq, Structural)]
pub struct Para {
    /// The direction of the lines.
    pub direction: LayoutDir,
    /// Space between neighbours in a line.
    pub margin: Fixed,
    /// Space between lines.
    pub line_gap: Fixed,
    /// Space before the first and after the last child of a line.
    pub padding: Fixed,
    /// Space before the first and after the last line.
    pub cross_padding: Fixed,
    /// The extent of the container along the lines.
    pub width: Fixed,
}

/// How far a paragraph has got.
#[derive(Debug, Clone, Copy, PartialEq, Eq, Structural)]
pub struct Cursor {
    /// Where the next child would lead, along the line.
    pub at: Fixed,
    /// Where the line under way starts, across.
    pub top: Fixed,
    /// The height of the line under way so far.
    pub height: Fixed,
    /// Whether the line under way has no child yet.
    pub fresh: bool,
}

/// The cursor before the first child.
pub open spec fn spec_start(para: Para) -> Cursor {
    Cursor { at: para.padding, top: para.cross_padding, height: Fixed::zero(), fresh: true }
}

/// Whether a child of the extent `main` along the line has to go to the next
/// line: the line under way has a child already, and with this one and the
/// padding it would be longer than the container.
pub open spec fn spec_wraps(para: Para, cursor: Cursor, main: Fixed) -> bool {
    !cursor.fresh && cursor.at.plus(main).plus(para.padding)@ > para.width@
}

/// Where a child goes, given the cursor before it: a child that wraps leads
/// the next line, any other goes where the cursor is.
pub open spec fn spec_place_one(para: Para, cursor: Cursor, item: LayoutItem, index: usize)
    -> Placed {
    let main = para.direction.spec_main_of(item.size);
    if !(item.control is Linebreak) && spec_wraps(para, cursor, main) {
        Placed {
            index,
            main: para.padding,
            cross: cursor.top.plus(cursor.height).plus(para.line_gap),
        }
    } else {
        Placed { index, main: cursor.at, cross: cursor.top }
    }
}

/// The cursor after a child, given the cursor before it.
///
/// A line break ends the line, which is at least as high as the break. A
/// child that wraps starts the next line. Any other child extends the line.
pub open spec fn spec_advance(para: Para, cursor: Cursor, item: LayoutItem) -> Cursor {
    let main = para.direction.spec_main_of(item.size);
    let cross = para.direction.spec_cross_of(item.size);
    if item.control is Linebreak {
        Cursor {
            at: para.padding,
            top: cursor.top.plus(cursor.height.larger(cross)).plus(para.line_gap),
            height: Fixed::zero(),
            fresh: true,
        }
    } else if spec_wraps(para, cursor, main) {
        Cursor {
            at: para.padding.plus(main).plus(para.margin),
            top: cursor.top.plus(cursor.height).plus(para.line_gap),
            height: cross,
            fresh: false,
        }
    } else {
        Cursor {
            at: cursor.at.plus(main).plus(para.margin),
            top: cursor.top,
            height: cursor.height.larger(cross),
            fresh: false,
        }
    }
}

/// The cursor after the first `k` picks.
pub open spec fn cursor_after(items: Seq<LayoutItem>, picks: Seq<usize>, para: Para, k: int)
    -> Cursor
    decreases k,
{
    if k <= 0 {
        spec_start(para)
    } else {
        spec_advance(para, cursor_after(items, picks, para, k - 1), items[picks[k - 1] as int])
    }
}

/// The picks of a paragraph as placed, in order.
pub open spec fn paragraph_placed(items: Seq<LayoutItem>, picks: Seq<usize>, para: Para) -> Seq<
    Placed,
> {
    Seq::new(
        picks.len(),
        |k: int|
            spec_place_one(
                para,
                cursor_after(items, picks, para, k),
                items[picks[k] as int],
                picks[k],
            ),
    )
}

/// The size of a paragraph: as wide as the container and as high as the
/// lines with their padding.
pub open spec fn paragraph_size(items: Seq<LayoutItem>, picks: Seq<usize>, para: Para) -> Vec2 {
    let last = cursor_after(items, picks, para, picks.len() as int);
    para.direction.spec_compose(para.width, last.top.plus(last.height).plus(para.cross_padding))
}

/// A paragraph is placed in only one way.
pub proof fn lemma_is_paragraph(
    items: Seq<LayoutItem>,
    picks: Seq<usize>,
    para: Para,
    placed: Seq<Placed>,
    size: Vec2,
)
    requires
        is_paragraph(items, picks, para, placed, size),
    ensures
        placed == paragraph_placed(items, picks, para),
        size == paragraph_size(items, picks, para),
{
    assert(placed =~= paragraph_placed(items, picks, para));
}

/// Whether `placed` and `size` are the paragraph of the picks: every pick is
/// placed, in order, where the cursor before it says, and the paragraph is as
/// wide as the container and as high as the lines with their padding.
pub open spec fn is_paragraph(
    items: Seq<LayoutItem>,
    picks: Seq<usize>,
    para: Para,
    placed: Seq<Placed>,
    size: Vec2,
) -> bool {
    let last = cursor_after(items, picks, para, picks.len() as int);
    &&& placed.len() == picks.len()
    &&& forall|k: int|
        0 <= k < picks.len() ==> #[trigger] placed[k] == spec_place_one(
            para,
            cursor_after(items, picks, para, k),
            items[picks[k] as int],
            picks[k],
        )
    &&& size == para.direction.spec_compose(
        para.width,
        last.top.plus(last.height).plus(para.cross_padding),
    )
}

/// Places the picks in lines; see [`is_paragraph`].
pub fn arrange_paragraph(items: &Vec<LayoutItem>, picks: &Vec<usize>, para: Para) -> (out:
    LayoutOutput)
    requires
        forall|i: int| 0 <= i < picks@.len() ==> (#[trigger] picks@[i]) < items@.len(),
    ensures
        is_paragraph(items@, picks@, para, out.placed@, out.size),
{
    let mut placed: Vec<Placed> = Vec::new();
    let mut cursor = Cursor {
        at: para.padding,
        top: para.cross_padding,
        height: Fixed::zero(),
        fresh: true,
    };
    let mut k: usize = 0;
    while k < picks.len()
        invariant
            k <= picks.len(),
            forall|i: int| 0 <= i < picks@.len() ==> (#[trigger] picks@[i]) < items@.len(),
            cursor == cursor_after(items@, picks@, para, k as int),
            placed@.len() == k,
            forall|i: int|
                0 <= i < k ==> #[trigger] placed@[i] == spec_place_one(
                    para,
                    cursor_after(items@, picks@, para, i),
                    items@[picks@[i] as int],
                    picks@[i],
                ),
        decreases picks.len() - k,
    {
        let index = picks[k];
        let item = items[index];
        let main = para.direction.main_of(item.size);
        let cross = para.direction.cross_of(item.size);
        let is_break = matches!(item.control, crate::layout::LayoutControl::Linebreak);
        let wraps = !cursor.fresh && cursor.at.plus(main).plus(para.padding).raw > para.width.raw;
        if is_break {
            placed.push(Placed { index, main: cursor.at, cross: cursor.top });
            cursor =
            Cursor {
                at: para.padding,
                top: cursor.top.plus(cursor.height.larger(cross)).plus(para.line_gap),
                height: Fixed::zero(),
                fresh: true,
            };
        } else if wraps {
            let top = cursor.top.plus(cursor.height).plus(para.line_gap);
            placed.push(Placed { index, main: para.padding, cross: top });
            cursor =
            Cursor {
                at: para.padding.plus(main).plus(para.margin),
                top,
                height: cross,
                fresh: false,
            };
        } else {
            placed.push(Placed { index, main: cursor.at, cross: cursor.top });
            cursor =
            Cursor {
                at: cursor.at.plus(main).plus(para.margin),
                top: cursor.top,
                height: cursor.height.larger(cross),
                fresh: false,
            };
        }
        k += 1;
    }
    LayoutOutput {
        placed,
        size: para.direction.compose(
            para.width,
            cursor.top.plus(cursor.height).plus(para.cross_padding),
        ),
    }
}

} // verus!
