//! The walk that turns the placements of a tree of nodes into rectangles in
//! the world.
//!
//! The tree belongs to the host. For the walk it is listed parents first:
//! each node names its parent by position in the list. A node without a
//! parent, or one that names a position at or after its own, hangs on the
//! root.
//!
//! Sizes are resolved first, from the root down. A container then lays out
//! its children from their sizes; a container whose size is computed takes
//! the size that its layout needs. A child that its parent's layout places
//! sits where the layout puts it; every other node sits where its own
//! placement says.

use vstd::prelude::*;
use crate::fixed::{Fixed, in_range};
use crate::vec2::Vec2;
use crate::rect::{Anchor, RotatedRect};
use crate::scaling::{Size2, SizeUnit};
use crate::dimension::{Dimension, DimensionData, DimensionType};
use crate::transform::Transform2D;
use crate::layout::{Container, LayoutControl, LayoutItem, Placed, center_of, spec_center_of};
use crate::layout::container::LayoutModel;
use crate::layout::stack::LayoutOutput;

verus! {

/// A node as the walk sees it.
#[derive(Clone, Copy, Debug, PartialEq, Eq, Structural)]
pub struct Node {
    /// The position of the parent in the list, if the node has one.
    pub parent: Option<usize>,
    /// The placement relative to the parent.
    pub transform: Transform2D,
    /// The sizing as declared.
    pub dimension: Dimension,
    /// The sizing data of the last frame, with what was measured since.
    pub data: DimensionData,
    /// The layout of the node's children, if it has one.
    pub container: Option<Container>,
    /// What the node means to the layout of its parent.
    pub control: LayoutControl,
}

/// What the walk finds for one node.
#[derive(Clone, Copy, Debug, PartialEq, Eq, Structural)]
pub struct Resolved {
    /// The rectangle in the world.
    pub rect: RotatedRect,
    /// The size and font size in pixels.
    pub data: DimensionData,
}

impl Node {
    /// A node that hangs on `parent` with the given placement and sizing, and
    /// has no layout or part in one beyond the ordinary.
    pub fn new(parent: Option<usize>, transform: Transform2D, dimension: Dimension) -> (r: Node)
        ensures
            r == (Node {
                parent,
                transform,
                dimension,
                data: DimensionData {
                    size: Vec2::zero(),
                    em: Fixed::zero(),
                    aspect: Fixed::zero(),
                },
                container: None,
                control: LayoutControl::Normal,
            }),
    {
        Node {
            parent,
            transform,
            dimension,
            data: DimensionData { size: Vec2::zero(), em: Fixed::zero(), aspect: Fixed::zero() },
            container: None,
            control: LayoutControl::Normal,
        }
    }

    /// What the walk finds for this node under the parent `parent` where no
    /// layout is involved: the sizing is resolved against the parent's size
    /// and font size, then the node is placed with its own size and font
    /// size.
    pub open spec fn spec_resolve(self, parent: Resolved, rem: Fixed) -> Resolved {
        let data = self.dimension.estimate(self.data, parent.data.size, parent.data.em, rem);
        Resolved { rect: self.transform.resolve(data.size, parent.rect, data.em, rem), data }
    }

    /// What the walk finds for this node under the parent `parent` where no
    /// layout is involved.
    #[verifier::when_used_as_spec(spec_resolve)]
    pub fn resolve(self, parent: Resolved, rem: Fixed) -> (r: Resolved)
        ensures
            r == self.spec_resolve(parent, rem),
    {
        let data = self.dimension.estimate(self.data, parent.data.size, parent.data.em, rem);
        Resolved { rect: self.transform.resolve(data.size, parent.rect, data.em, rem), data }
    }
}

/// The position of the parent of the node at position `i`, if it names one
/// before its own.
pub open spec fn parent_of(nodes: Seq<Node>, i: int) -> Option<int> {
    match nodes[i].parent {
        Some(p) => if p < i {
            Some(p as int)
        } else {
            None
        },
        None => None,
    }
}

/// The sizing of the node at position `i` as resolved against its parent's,
/// before any layout has its say.
pub open spec fn sized_at(nodes: Seq<Node>, root: DimensionData, rem: Fixed, i: int)
    -> DimensionData
    decreases i,
{
    if i < 0 {
        root
    } else {
        let above = match parent_of(nodes, i) {
            Some(p) => sized_at(nodes, root, rem, p),
            None => root,
        };
        nodes[i].dimension.estimate(nodes[i].data, above.size, above.em, rem)
    }
}

/// The positions among the first `n` nodes of the children of the node at
/// position `p`, in order.
pub open spec fn children_of(nodes: Seq<Node>, p: int, n: int) -> Seq<usize>
    decreases n,
{
    if n <= 0 {
        Seq::empty()
    } else {
        let rest = children_of(nodes, p, n - 1);
        if parent_of(nodes, n - 1) == Some(p) {
            rest.push((n - 1) as usize)
        } else {
            rest
        }
    }
}

/// The children `kids` as their parent's layout sees them: by their resolved
/// sizes.
pub open spec fn items_of(nodes: Seq<Node>, root: DimensionData, rem: Fixed, kids: Seq<usize>)
    -> Seq<LayoutItem> {
    Seq::new(
        kids.len(),
        |k: int|
            LayoutItem {
                size: sized_at(nodes, root, rem, kids[k] as int).size,
                control: nodes[kids[k] as int].control,
            },
    )
}

/// The layout of the children of the node at position `i`, if the node is a
/// container: what the container makes of its children in the room of its
/// own resolved size.
pub open spec fn layout_at(nodes: Seq<Node>, root: DimensionData, rem: Fixed, i: int) -> Option<
    LayoutModel,
> {
    match nodes[i].container {
        Some(c) => Some(
            c.layout_of(
                sized_at(nodes, root, rem, i).size,
                items_of(nodes, root, rem, children_of(nodes, i, nodes.len() as int)),
            ),
        ),
        None => None,
    }
}

/// The sizing of the node at position `i` for the frame: as resolved, but a
/// container whose size is computed has the size of its layout.
pub open spec fn data_at(nodes: Seq<Node>, root: DimensionData, rem: Fixed, i: int)
    -> DimensionData {
    let sized = sized_at(nodes, root, rem, i);
    match layout_at(nodes, root, rem, i) {
        Some(l) => if nodes[i].dimension.dimension is Dynamic {
            DimensionData { size: l.size, ..sized }
        } else {
            sized
        },
        None => sized,
    }
}

/// The place of the node `i` among the first `n` of the children `kids`.
pub open spec fn position_in(kids: Seq<usize>, i: int, n: int) -> Option<int>
    decreases n,
{
    if n <= 0 {
        None
    } else if kids[n - 1] == i {
        Some(n - 1)
    } else {
        position_in(kids, i, n - 1)
    }
}

/// Where the child in place `k` was put, going by the first `n` placements.
pub open spec fn spot_in(placed: Seq<Placed>, k: int, n: int) -> Option<Placed>
    decreases n,
{
    if n <= 0 {
        None
    } else if placed[n - 1].index == k {
        Some(placed[n - 1])
    } else {
        spot_in(placed, k, n - 1)
    }
}

/// Where the layout of its parent puts the centre of the node at position
/// `i`, measured from the centre of the parent; nothing where the parent has
/// no layout or its layout leaves the node out.
pub open spec fn offset_at(nodes: Seq<Node>, root: DimensionData, rem: Fixed, i: int) -> Option<
    Vec2,
> {
    match parent_of(nodes, i) {
        Some(p) => match layout_at(nodes, root, rem, p) {
            Some(l) => {
                let kids = children_of(nodes, p, nodes.len() as int);
                match position_in(kids, i, kids.len() as int) {
                    Some(k) => match spot_in(l.placed, k, l.placed.len() as int) {
                        Some(s) => Some(
                            spec_center_of(
                                nodes[p].container->0.spec_direction(),
                                l.size,
                                s.main,
                                s.cross,
                                data_at(nodes, root, rem, i).size,
                            ),
                        ),
                        None => None,
                    },
                    None => None,
                }
            },
            None => None,
        },
        None => None,
    }
}

/// The placement of a node that a layout puts `offset` from the centre of
/// its parent: centre on centre plus the offset, with the node's own
/// rotation, scale and depth.
pub open spec fn spec_laid_out(t: Transform2D, offset: Vec2) -> Transform2D {
    Transform2D {
        center: Anchor::Inherit,
        anchor: Anchor::preset(0, 0),
        parent_anchor: Anchor::preset(0, 0),
        offset: Size2::of(SizeUnit::Pixels, SizeUnit::Pixels, offset),
        ..t
    }
}

/// The placement of a node that a layout puts `offset` from the centre of
/// its parent.
#[verifier::when_used_as_spec(spec_laid_out)]
pub fn laid_out(t: Transform2D, offset: Vec2) -> (r: Transform2D)
    ensures
        r == spec_laid_out(t, offset),
{
    Transform2D {
        center: Anchor::Inherit,
        anchor: Anchor::center(),
        parent_anchor: Anchor::center(),
        offset: Size2::pixels(offset.x, offset.y),
        rotation: t.rotation,
        scale: t.scale,
        z: t.z,
    }
}

/// The rectangle of the node at position `i`.
pub open spec fn rect_at(nodes: Seq<Node>, root: Resolved, rem: Fixed, i: int) -> RotatedRect
    decreases i,
{
    if i < 0 {
        root.rect
    } else {
        let above = match parent_of(nodes, i) {
            Some(p) => rect_at(nodes, root, rem, p),
            None => root.rect,
        };
        let data = data_at(nodes, root.data, rem, i);
        let transform = match offset_at(nodes, root.data, rem, i) {
            Some(offset) => spec_laid_out(nodes[i].transform, offset),
            None => nodes[i].transform,
        };
        transform.resolve(data.size, above, data.em, rem)
    }
}

/// What the walk finds for the node at position `i`.
pub open spec fn resolved_at(nodes: Seq<Node>, root: Resolved, rem: Fixed, i: int) -> Resolved {
    Resolved { rect: rect_at(nodes, root, rem, i), data: data_at(nodes, root.data, rem, i) }
}

/// Whether a layout as computed is the layout as described.
pub open spec fn layout_agrees(out: Option<LayoutOutput>, model: Option<LayoutModel>) -> bool {
    match out {
        Some(o) => model is Some && o.placed@ == model->0.placed && o.size == model->0.size,
        None => model is None,
    }
}

/// The sizes of all nodes as resolved against their parents'.
pub fn measure(nodes: &Vec<Node>, root: DimensionData, rem: Fixed) -> (sizes: Vec<DimensionData>)
    ensures
        sizes@.len() == nodes@.len(),
        forall|i: int| 0 <= i < nodes@.len() ==> sizes@[i] == sized_at(nodes@, root, rem, i),
{
    let mut sizes: Vec<DimensionData> = Vec::new();
    let mut i: usize = 0;
    while i < nodes.len()
        invariant
            i <= nodes.len(),
            sizes@.len() == i,
            forall|j: int| 0 <= j < i ==> sizes@[j] == sized_at(nodes@, root, rem, j),
        decreases nodes.len() - i,
    {
        let node = nodes[i];
        let above = match node.parent {
            Some(p) => if p < i {
                sizes[p]
            } else {
                root
            },
            None => root,
        };
        sizes.push(node.dimension.estimate(node.data, above.size, above.em, rem));
        i += 1;
    }
    sizes
}

/// The positions of the children of the node at position `p`, in order.
pub fn collect_children(nodes: &Vec<Node>, p: usize) -> (kids: Vec<usize>)
    ensures
        kids@ == children_of(nodes@, p as int, nodes@.len() as int),
        forall|k: int| 0 <= k < kids@.len() ==> (#[trigger] kids@[k]) < nodes@.len(),
{
    let mut kids: Vec<usize> = Vec::new();
    let mut j: usize = 0;
    while j < nodes.len()
        invariant
            j <= nodes.len(),
            kids@ == children_of(nodes@, p as int, j as int),
            forall|k: int| 0 <= k < kids@.len() ==> (#[trigger] kids@[k]) < j,
        decreases nodes.len() - j,
    {
        let is_child = match nodes[j].parent {
            Some(q) => q < j && q == p,
            None => false,
        };
        if is_child {
            kids.push(j);
        }
        j += 1;
    }
    kids
}

fn gather_items(
    nodes: &Vec<Node>,
    sizes: &Vec<DimensionData>,
    kids: &Vec<usize>,
    Ghost(root): Ghost<DimensionData>,
    Ghost(rem): Ghost<Fixed>,
) -> (items: Vec<LayoutItem>)
    requires
        sizes@.len() == nodes@.len(),
        forall|i: int| 0 <= i < nodes@.len() ==> sizes@[i] == sized_at(nodes@, root, rem, i),
        forall|k: int| 0 <= k < kids@.len() ==> (#[trigger] kids@[k]) < nodes@.len(),
    ensures
        items@ == items_of(nodes@, root, rem, kids@),
{
    let mut items: Vec<LayoutItem> = Vec::new();
    let mut k: usize = 0;
    while k < kids.len()
        invariant
            k <= kids.len(),
            sizes@.len() == nodes@.len(),
            forall|i: int| 0 <= i < nodes@.len() ==> sizes@[i] == sized_at(nodes@, root, rem, i),
            forall|m: int| 0 <= m < kids@.len() ==> (#[trigger] kids@[m]) < nodes@.len(),
            items@.len() == k,
            forall|m: int|
                0 <= m < k ==> #[trigger] items@[m] == items_of(nodes@, root, rem, kids@)[m],
        decreases kids.len() - k,
    {
        let kid = kids[k];
        items.push(LayoutItem { size: sizes[kid].size, control: nodes[kid].control });
        k += 1;
    }
    assert(items@ =~= items_of(nodes@, root, rem, kids@));
    items
}

fn find_position(kids: &Vec<usize>, i: usize) -> (r: Option<usize>)
    ensures
        match r {
            Some(k) => position_in(kids@, i as int, kids@.len() as int) == Some(k as int),
            None => position_in(kids@, i as int, kids@.len() as int) is None,
        },
{
    let mut found: Option<usize> = None;
    let mut n: usize = 0;
    while n < kids.len()
        invariant
            n <= kids.len(),
            match found {
                Some(k) => position_in(kids@, i as int, n as int) == Some(k as int),
                None => position_in(kids@, i as int, n as int) is None,
            },
        decreases kids.len() - n,
    {
        if kids[n] == i {
            found = Some(n);
        }
        n += 1;
    }
    found
}

fn find_spot(placed: &Vec<Placed>, k: usize) -> (r: Option<Placed>)
    ensures
        r == spot_in(placed@, k as int, placed@.len() as int),
{
    let mut found: Option<Placed> = None;
    let mut n: usize = 0;
    while n < placed.len()
        invariant
            n <= placed.len(),
            found == spot_in(placed@, k as int, n as int),
        decreases placed.len() - n,
    {
        if placed[n].index == k {
            found = Some(placed[n]);
        }
        n += 1;
    }
    found
}

/// Resolves every node of the tree: the result at each position is what
/// [`resolved_at`] describes.
pub fn propagate(nodes: &Vec<Node>, root: Resolved, rem: Fixed) -> (out: Vec<Resolved>)
    ensures
        out@.len() == nodes@.len(),
        forall|i: int| 0 <= i < nodes@.len() ==> out@[i] == resolved_at(nodes@, root, rem, i),
{
    let sizes = measure(nodes, root.data, rem);
    let mut layouts: Vec<Option<LayoutOutput>> = Vec::new();
    let mut families: Vec<Vec<usize>> = Vec::new();
    let mut out: Vec<Resolved> = Vec::new();
    let mut i: usize = 0;
    while i < nodes.len()
        invariant
            i <= nodes.len(),
            sizes@.len() == nodes@.len(),
            forall|j: int|
                0 <= j < nodes@.len() ==> sizes@[j] == sized_at(nodes@, root.data, rem, j),
            out@.len() == i,
            layouts@.len() == i,
            families@.len() == i,
            forall|j: int| 0 <= j < i ==> out@[j] == resolved_at(nodes@, root, rem, j),
            forall|j: int|
                0 <= j < i ==> layout_agrees(
                    #[trigger] layouts@[j],
                    layout_at(nodes@, root.data, rem, j),
                ),
            forall|j: int|
                0 <= j < i && nodes@[j].container is Some ==> (#[trigger] families@[j])@
                    == children_of(nodes@, j, nodes@.len() as int),
        decreases nodes.len() - i,
    {
        let node = nodes[i];
        let mut data = sizes[i];
        let mut kids: Vec<usize> = Vec::new();
        let layout: Option<LayoutOutput> = match node.container {
            Some(c) => {
                kids = collect_children(nodes, i);
                let items = gather_items(nodes, &sizes, &kids, Ghost(root.data), Ghost(rem));
                let placed = c.place(data.size, &items);
                if matches!(node.dimension.dimension, DimensionType::Dynamic) {
                    data.size = placed.size;
                }
                Some(placed)
            },
            None => None,
        };
        assert(layout_agrees(layout, layout_at(nodes@, root.data, rem, i as int)));
        assert(data == data_at(nodes@, root.data, rem, i as int));
        let parent: Option<usize> = match node.parent {
            Some(p) => if p < i {
                Some(p)
            } else {
                None
            },
            None => None,
        };
        let mut above = root.rect;
        let mut offset: Option<Vec2> = None;
        match parent {
            Some(p) => {
                above = out[p].rect;
                match (&layouts[p], nodes[p].container) {
                    (Some(l), Some(c)) => {
                        match find_position(&families[p], i) {
                            Some(k) => {
                                match find_spot(&l.placed, k) {
                                    Some(s) => {
                                        offset =
                                        Some(
                                            center_of(
                                                c.direction(),
                                                l.size,
                                                s.main,
                                                s.cross,
                                                data.size,
                                            ),
                                        );
                                    },
                                    None => {},
                                }
                            },
                            None => {},
                        }
                    },
                    _ => {},
                }
            },
            None => {},
        }
        assert(offset == offset_at(nodes@, root.data, rem, i as int));
        let transform = match offset {
            Some(o) => laid_out(node.transform, o),
            None => node.transform,
        };
        let rect = transform.resolve(data.size, above, data.em, rem);
        out.push(Resolved { rect, data });
        layouts.push(layout);
        families.push(kids);
        i += 1;
    }
    out
}

/// Whether the first `n` nodes form a chain: the first hangs on the root and
/// each other one on the node before it.
pub open spec fn is_chain(nodes: Seq<Node>, n: int) -> bool {
    &&& 0 <= n <= nodes.len()
    &&& forall|i: int|
        0 <= i < n ==> if i == 0 {
            (#[trigger] nodes[i]).parent is None
        } else {
            nodes[i].parent is Some && nodes[i].parent->0 == i - 1
        }
}

/// Rotation, scale and depth of a node compose with its parent's whether or
/// not a layout places the node: a layout moves a node and does nothing else
/// to it.
pub proof fn lemma_walk_composes(nodes: Seq<Node>, root: Resolved, rem: Fixed, i: int)
    requires
        0 <= i < nodes.len(),
    ensures
        ({
            let above = match parent_of(nodes, i) {
                Some(p) => rect_at(nodes, root, rem, p),
                None => root.rect,
            };
            let t = nodes[i].transform;
            &&& rect_at(nodes, root, rem, i).rotation == above.rotation.followed_by(t.rotation)
            &&& rect_at(nodes, root, rem, i).scale == above.scale.times(t.scale)
            &&& rect_at(nodes, root, rem, i).z == above.z.plus(t.z)
        }),
{
}

/// Rotations add up along a chain: where each of `n` nodes in a chain is
/// turned by the same angle against its parent and the root is not turned,
/// the last node is turned by `n` times that angle, as long as that product
/// is representable.
pub proof fn lemma_chain_rotation(
    nodes: Seq<Node>,
    root: Resolved,
    rem: Fixed,
    angle: Fixed,
    n: int,
)
    requires
        n >= 1,
        is_chain(nodes, n),
        root.rect.rotation.angle@ == 0,
        forall|i: int| 0 <= i < n ==> (#[trigger] nodes[i]).transform.rotation.angle == angle,
        in_range(n * angle@),
    ensures
        resolved_at(nodes, root, rem, n - 1).rect.rotation.angle@ == n * angle@,
    decreases n,
{
    let a = angle@;
    assert(nodes[n - 1].transform.rotation.angle == angle);
    lemma_walk_composes(nodes, root, rem, n - 1);
    if n == 1 {
        assert(nodes[0].parent is None);
        assert(parent_of(nodes, 0) is None);
        assert(1 * a == a);
    } else {
        assert(in_range((n - 1) * a)) by (nonlinear_arith)
            requires
                in_range(n * a),
                in_range(a),
                n >= 2,
        {
            if a >= 0 {
                assert((n - 1) * a <= n * a);
                assert((n - 1) * a >= 0);
            } else {
                assert((n - 1) * a >= n * a);
                assert((n - 1) * a <= 0);
            }
        }
        lemma_chain_rotation(nodes, root, rem, angle, n - 1);
        assert(nodes[n - 1].parent is Some && nodes[n - 1].parent->0 == n - 2);
        assert(parent_of(nodes, n - 1) == Some(n - 2));
        assert((n - 1) * a + a == n * a) by (nonlinear_arith);
    }
}

/// Scales multiply and depths add from parent to child, whatever else the
/// placement says.
pub proof fn lemma_scale_and_depth_compose(node: Node, parent: Resolved, rem: Fixed)
    ensures
        node.spec_resolve(parent, rem).rect.scale == parent.rect.scale.times(node.transform.scale),
        node.spec_resolve(parent, rem).rect.z == parent.rect.z.plus(node.transform.z),
        node.spec_resolve(parent, rem).rect.rotation == parent.rect.rotation.followed_by(
            node.transform.rotation,
        ),
{
}

/// Where no layout is involved the walk is the plain resolution of each node
/// under its parent: a node whose parent is no container, or that hangs on
/// the root, and that is no container itself is resolved from what the walk
/// found for its parent.
pub proof fn lemma_plain_node(nodes: Seq<Node>, root: Resolved, rem: Fixed, i: int)
    requires
        0 <= i < nodes.len(),
        nodes[i].container is None,
        parent_of(nodes, i) matches Some(p) ==> nodes[p].container is None,
    ensures
        resolved_at(nodes, root, rem, i) == nodes[i].spec_resolve(
            match parent_of(nodes, i) {
                Some(p) => resolved_at(nodes, root, rem, p),
                None => root,
            },
            rem,
        ),
{
    match parent_of(nodes, i) {
        Some(p) => {
            assert(layout_at(nodes, root.data, rem, p) is None);
            assert(layout_at(nodes, root.data, rem, i) is None);
            assert(data_at(nodes, root.data, rem, p) == sized_at(nodes, root.data, rem, p));
        },
        None => {},
    }
}

} // verus!
