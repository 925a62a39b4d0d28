//! Children end to end along one axis.

use vstd::prelude::*;
use crate::fixed::Fixed;
use crate::vec2::Vec2;
use crate::layout::{CrossAlign, LayoutDir, LayoutItem, Placed, half};

verus! {

/// The settings of a line of children.
#[derive(Debug, Clone, Copy, PartialEq, Eq, Structural)]
pub struct Line {
    /// The direction of the line.
    pub direction: LayoutDir,
    /// Where a child sits across the line.
    pub align: CrossAlign,
    /// Space between neighbours along the line.
    pub margin: Fixed,
    /// Space before the first and after the last child along the line.
    pub padding: Fixed,
    /// Space before the first edge and after the far edge across the line.
    pub cross_padding: Fixed,
    /// The extent along the line beyond which children are left out, if any.
    pub limit: Option<Fixed>,
}

/// What a layout gives: the children placed and the size they need.
#[derive(Debug)]
pub struct LayoutOutput {
    /// The children placed, in order.
    pub placed: Vec<Placed>,
    /// Width and height that the children need, padding included.
    pub size: Vec2,
}

/// The extent along the line of the pick at position `k`.
pub open spec fn pick_main(items: Seq<LayoutItem>, picks: Seq<usize>, line: Line, k: int) -> Fixed {
    line.direction.spec_main_of(items[picks[k] as int].size)
}

/// The extent across the line of the pick at position `k`.
pub open spec fn pick_cross(items: Seq<LayoutItem>, picks: Seq<usize>, line: Line, k: int)
    -> Fixed {
    line.direction.spec_cross_of(items[picks[k] as int].size)
}

/// The distance of the leading edge of the pick at position `k` from the
/// leading edge of the container: the padding, the extents of the picks
/// before it, and a margin after each of those.
pub open spec fn lead(items: Seq<LayoutItem>, picks: Seq<usize>, line: Line, k: int) -> Fixed
    decreases k,
{
    if k <= 0 {
        line.padding
    } else {
        lead(items, picks, line, k - 1).plus(pick_main(items, picks, line, k - 1)).plus(
            line.margin,
        )
    }
}

/// Whether the pick at position `k` ends, padding included, within the limit
/// of the line. Without a limit every pick does.
pub open spec fn fits(items: Seq<LayoutItem>, picks: Seq<usize>, line: Line, k: int) -> bool {
    line.limit matches Some(l) ==> lead(items, picks, line, k).plus(
        pick_main(items, picks, line, k),
    ).plus(line.padding)@ <= l@
}

/// How many of the first `k` picks are placed: all those before the first
/// that does not fit.
pub open spec fn placed_count(items: Seq<LayoutItem>, picks: Seq<usize>, line: Line, k: int) -> int
    decreases k,
{
    if k <= 0 {
        0
    } else {
        let before = placed_count(items, picks, line, k - 1);
        if before == k - 1 && fits(items, picks, line, k - 1) {
            k
        } else {
            before
        }
    }
}

/// The largest extent across the line among the first `k` picks; zero for
/// none.
pub open spec fn breadth(items: Seq<LayoutItem>, picks: Seq<usize>, line: Line, k: int) -> Fixed
    decreases k,
{
    if k <= 0 {
        Fixed::zero()
    } else {
        breadth(items, picks, line, k - 1).larger(pick_cross(items, picks, line, k - 1))
    }
}

/// The distance across the line of a child of extent `size` from the first
/// inner edge of a line of inner extent `room`.
pub open spec fn spec_cross_offset(align: CrossAlign, room: Fixed, size: Fixed) -> Fixed {
    match align {
        CrossAlign::Start => Fixed::zero(),
        CrossAlign::Middle => room.minus(size).times(crate::layout::spec_half()),
        CrossAlign::End => room.minus(size),
    }
}

/// The distance across the line of a child of extent `size` from the first
/// inner edge of a line of inner extent `room`.
#[verifier::when_used_as_spec(spec_cross_offset)]
pub fn cross_offset(align: CrossAlign, room: Fixed, size: Fixed) -> (r: Fixed)
    ensures
        r == spec_cross_offset(align, room, size),
{
    match align {
        CrossAlign::Start => Fixed::zero(),
        CrossAlign::Middle => room.minus(size).times(half()),
        CrossAlign::End => room.minus(size),
    }
}

/// Where the pick at position `k` is placed in a line whose placed picks are
/// `room` across at most.
pub open spec fn placement(
    items: Seq<LayoutItem>,
    picks: Seq<usize>,
    line: Line,
    room: Fixed,
    k: int,
) -> Placed {
    Placed {
        index: picks[k],
        main: lead(items, picks, line, k),
        cross: line.cross_padding.plus(
            spec_cross_offset(line.align, room, pick_cross(items, picks, line, k)),
        ),
    }
}

/// The extent along the line that `n` placed picks need: twice the padding
/// for none, and otherwise up to the end of the last one plus the padding.
pub open spec fn extent_main(items: Seq<LayoutItem>, picks: Seq<usize>, line: Line, n: int)
    -> Fixed {
    if n <= 0 {
        line.padding.plus(line.padding)
    } else {
        lead(items, picks, line, n - 1).plus(pick_main(items, picks, line, n - 1)).plus(
            line.padding,
        )
    }
}

/// Whether `placed` is the line of the picks: the picks before the first
/// that does not fit are placed, in order, each at its lead and aligned in
/// the room of the widest.
pub open spec fn line_places(
    items: Seq<LayoutItem>,
    picks: Seq<usize>,
    line: Line,
    placed: Seq<Placed>,
) -> bool {
    let n = placed_count(items, picks, line, picks.len() as int);
    let room = breadth(items, picks, line, n);
    &&& placed.len() == n
    &&& forall|k: int| 0 <= k < n ==> #[trigger] placed[k] == placement(items, picks, line, room, k)
}

/// The placed picks of a line, in order.
pub open spec fn line_placed(items: Seq<LayoutItem>, picks: Seq<usize>, line: Line) -> Seq<Placed> {
    let n = placed_count(items, picks, line, picks.len() as int);
    let room = breadth(items, picks, line, n);
    Seq::new(n as nat, |k: int| placement(items, picks, line, room, k))
}

/// The size that the placed picks of a line need, padding included.
pub open spec fn line_size(items: Seq<LayoutItem>, picks: Seq<usize>, line: Line) -> Vec2 {
    let n = placed_count(items, picks, line, picks.len() as int);
    let room = breadth(items, picks, line, n);
    line.direction.spec_compose(
        extent_main(items, picks, line, n),
        room.plus(line.cross_padding).plus(line.cross_padding),
    )
}

/// Whether `placed` and `size` are the line of the picks and the size that
/// it needs.
pub open spec fn is_line(
    items: Seq<LayoutItem>,
    picks: Seq<usize>,
    line: Line,
    placed: Seq<Placed>,
    size: Vec2,
) -> bool {
    line_places(items, picks, line, placed) && size == line_size(items, picks, line)
}

/// A line is placed in only one way.
pub proof fn lemma_line_places(
    items: Seq<LayoutItem>,
    picks: Seq<usize>,
    line: Line,
    placed: Seq<Placed>,
)
    requires
        line_places(items, picks, line, placed),
    ensures
        placed == line_placed(items, picks, line),
{
    lemma_placed_count(items, picks, line, picks.len() as int);
    assert(placed =~= line_placed(items, picks, line));
}

/// The placed picks are a leading part of the picks.
pub proof fn lemma_placed_count(items: Seq<LayoutItem>, picks: Seq<usize>, line: Line, k: int)
    requires
        0 <= k,
    ensures
        0 <= placed_count(items, picks, line, k) <= k,
        forall|j: int|
            0 <= j < placed_count(items, picks, line, k) ==> #[trigger] fits(items, picks, line, j),
        placed_count(items, picks, line, k) < k ==> !fits(
            items,
            picks,
            line,
            placed_count(items, picks, line, k),
        ),
        line.limit is None ==> placed_count(items, picks, line, k) == k,
    decreases k,
{
    if k > 0 {
        lemma_placed_count(items, picks, line, k - 1);
    }
}

/// Places the picks in a line; see [`is_line`].
pub fn arrange_line(items: &Vec<LayoutItem>, picks: &Vec<usize>, line: Line) -> (out: LayoutOutput)
    requires
        forall|i: int| 0 <= i < picks@.len() ==> (#[trigger] picks@[i]) < items@.len(),
    ensures
        is_line(items@, picks@, line, out.placed@, out.size),
{
    let mut count: usize = 0;
    let mut room = Fixed::zero();
    let mut at = line.padding;
    let mut end = line.padding.plus(line.padding);
    let mut k: usize = 0;
    while k < picks.len()
        invariant
            k <= picks.len(),
            forall|i: int| 0 <= i < picks@.len() ==> (#[trigger] picks@[i]) < items@.len(),
            count == placed_count(items@, picks@, line, k as int),
            count <= k,
            room == breadth(items@, picks@, line, count as int),
            at == lead(items@, picks@, line, k as int),
            end == extent_main(items@, picks@, line, count as int),
        decreases picks.len() - k,
    {
        let size = items[picks[k]].size;
        let main = line.direction.main_of(size);
        let cross = line.direction.cross_of(size);
        let stop = at.plus(main).plus(line.padding);
        let ok = match line.limit {
            Some(l) => stop.raw <= l.raw,
            None => true,
        };
        assert(ok == fits(items@, picks@, line, k as int));
        if count == k && ok {
            count = k + 1;
            room = room.larger(cross);
            end = stop;
        }
        at = at.plus(main).plus(line.margin);
        k += 1;
    }
    let mut placed: Vec<Placed> = Vec::new();
    let mut at = line.padding;
    let mut j: usize = 0;
    proof {
        lemma_placed_count(items@, picks@, line, picks@.len() as int);
    }
    while j < count
        invariant
            j <= count,
            count <= picks.len(),
            forall|i: int| 0 <= i < picks@.len() ==> (#[trigger] picks@[i]) < items@.len(),
            at == lead(items@, picks@, line, j as int),
            placed@.len() == j,
            forall|i: int|
                0 <= i < j ==> #[trigger] placed@[i] == placement(items@, picks@, line, room, i),
        decreases count - j,
    {
        let size = items[picks[j]].size;
        let main = line.direction.main_of(size);
        let cross = line.direction.cross_of(size);
        placed.push(
            Placed {
                index: picks[j],
                main: at,
                cross: line.cross_padding.plus(cross_offset(line.align, room, cross)),
            },
        );
        at = at.plus(main).plus(line.margin);
        j += 1;
    }
    LayoutOutput {
        placed,
        size: line.direction.compose(
            end,
            room.plus(line.cross_padding).plus(line.cross_padding),
        ),
    }
}

/// The stack of three children of the extents 10, 20 and 30 along the line,
/// without margin and padding: they lead at 0, 10 and 30, and the stack is 60
/// long. More generally, without margin and padding each child leads where
/// the one before it ends, and the stack ends where the last child does.
pub proof fn lemma_stack_is_compact(items: Seq<LayoutItem>, picks: Seq<usize>, line: Line, k: int)
    requires
        line.margin == Fixed::zero(),
        line.padding == Fixed::zero(),
        0 <= k,
    ensures
        lead(items, picks, line, 0) == Fixed::zero(),
        lead(items, picks, line, k + 1) == lead(items, picks, line, k).plus(
            pick_main(items, picks, line, k),
        ),
        extent_main(items, picks, line, k + 1) == lead(items, picks, line, k + 1),
{
    let end = lead(items, picks, line, k).plus(pick_main(items, picks, line, k));
    crate::fixed::lemma_plus_zero(end);
}

/// Children follow each other in order: where no child has a negative extent
/// along the line and the margin is not negative, no child leads before the
/// one before it ends.
pub proof fn lemma_stack_in_order(items: Seq<LayoutItem>, picks: Seq<usize>, line: Line, k: int)
    requires
        0 <= k,
        line.margin@ >= 0,
        pick_main(items, picks, line, k)@ >= 0,
    ensures
        lead(items, picks, line, k).plus(pick_main(items, picks, line, k))@ <= lead(
            items,
            picks,
            line,
            k + 1,
        )@,
        lead(items, picks, line, k)@ <= lead(items, picks, line, k + 1)@,
{
}

} // verus!
