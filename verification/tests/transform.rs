use rectray::dimension::{Dimension, DimensionData};
use rectray::layout::{Container, CrossAlign, Layout, LayoutControl, LayoutDir, LayoutRange};
use rectray::fixed::Fixed;
use rectray::propagate::{propagate, Node, Resolved};
use rectray::rect::{Anchor, RotatedRect, Rotation};
use rectray::scaling::{FontSize, Size2};
use rectray::transform::Transform2D;
use rectray::vec2::Vec2;

fn transform_parent() -> RotatedRect {
    RotatedRect::upright(Vec2::from_ints(0, 0), Vec2::from_ints(100, 50))
}

fn transform_root() -> Resolved {
    Resolved {
        rect: transform_parent(),
        data: DimensionData {
            size: Vec2::from_ints(200, 100),
            em: Fixed::from_int(16),
            aspect: Fixed::zero(),
        },
    }
}

fn transform_node(parent: Option<usize>, transform: Transform2D, size: Size2) -> Node {
    Node::new(parent, transform, Dimension::owned(size))
}

fn transform_px(w: i32, h: i32) -> Size2 {
    Size2::pixels(Fixed::from_int(w), Fixed::from_int(h))
}

#[test]
fn unit_transform_sits_at_the_parents_center() {
    let t = Transform2D::unit();
    let r = t.resolve(Vec2::from_ints(20, 10), transform_parent(), Fixed::from_int(16), Fixed::from_int(16));
    assert_eq!(r.center, Vec2::from_ints(0, 0));
    assert_eq!(r.half_extent, Vec2::from_ints(10, 5));
    assert_eq!(r.rotation, Rotation::identity());
    assert_eq!(r.scale, Vec2::one());
    assert_eq!(r.z, Fixed::zero());
    assert_eq!(Transform2D::default(), t);
}

#[test]
fn anchor_lands_on_the_parent_anchor_plus_offset() {
    let mut t = Transform2D::unit();
    t.anchor = Anchor::top_left();
    t.offset = Size2::pixels(Fixed::from_int(5), Fixed::from_int(-5));
    let r = t.resolve(Vec2::from_ints(20, 10), transform_parent(), Fixed::from_int(16), Fixed::from_int(16));
    assert_eq!(r.center, Vec2::from_ints(-85, 40));
    assert_eq!(r.anchor(Anchor::top_left()), Vec2::from_ints(-95, 45));
}

#[test]
fn parent_anchor_can_differ_from_the_anchor() {
    let mut t = Transform2D::unit();
    t.anchor = Anchor::center_left();
    t.parent_anchor = Anchor::center_right();
    let r = t.resolve(Vec2::from_ints(20, 10), transform_parent(), Fixed::from_int(16), Fixed::from_int(16));
    assert_eq!(r.anchor(Anchor::center_left()), Vec2::from_ints(100, 0));
    assert_eq!(r.center, Vec2::from_ints(110, 0));
}

#[test]
fn offset_is_resolved_against_the_parents_size() {
    let mut t = Transform2D::unit();
    t.offset = Size2::percent(Fixed::from_int(25), Fixed::from_int(-50));
    let r = t.resolve(Vec2::from_ints(20, 10), transform_parent(), Fixed::from_int(16), Fixed::from_int(16));
    assert_eq!(r.center, Vec2::from_ints(50, -50));
    let mut u = Transform2D::unit();
    u.offset = Size2::em(Fixed::from_int(2), Fixed::from_int(1));
    let s = u.resolve(Vec2::from_ints(20, 10), transform_parent(), Fixed::from_int(8), Fixed::from_int(16));
    assert_eq!(s.center, Vec2::from_ints(16, 8));
}

#[test]
fn scale_and_depth_compose_down_the_tree() {
    let mut parent = transform_parent();
    parent.scale = Vec2::from_ints(2, 2);
    parent.z = Fixed::from_int(1);
    let mut t = Transform2D::unit();
    t.scale = Vec2::new(Fixed::from_int(3), Fixed::from_raw(500_000));
    t.z = Fixed::from_raw(250_000);
    let r = t.resolve(Vec2::from_ints(20, 10), parent, Fixed::from_int(16), Fixed::from_int(16));
    assert_eq!(r.scale, Vec2::from_ints(6, 1));
    assert_eq!(r.z, Fixed::from_raw(1_250_000));
}

#[test]
fn offset_turns_with_the_parent() {
    let mut parent = transform_parent();
    parent.rotation = Rotation::new(Fixed::from_raw(1_570_796), Fixed::zero(), Fixed::one());
    let mut t = Transform2D::unit();
    t.offset = Size2::pixels(Fixed::from_int(10), Fixed::zero());
    let r = t.resolve(Vec2::from_ints(20, 10), parent, Fixed::from_int(16), Fixed::from_int(16));
    assert_eq!(r.center, Vec2::from_ints(0, 10));
    assert_eq!(r.rotation.angle, Fixed::from_raw(1_570_796));
}

#[test]
fn node_turns_about_its_center_anchor() {
    let mut t = Transform2D::unit();
    t.anchor = Anchor::center_left();
    t.parent_anchor = Anchor::center();
    t.center = Anchor::center_left();
    t.rotation = Rotation::new(Fixed::from_raw(1_570_796), Fixed::zero(), Fixed::one());
    let r = t.resolve(Vec2::from_ints(20, 10), transform_parent(), Fixed::from_int(16), Fixed::from_int(16));
    assert_eq!(r.anchor(Anchor::center_left()), Vec2::from_ints(0, 0));
    assert_eq!(r.center, Vec2::from_ints(0, 10));
}

#[test]
fn rotations_add_up_along_a_chain() {
    let turn = Rotation::new(Fixed::from_raw(100_000), Fixed::from_raw(995_004), Fixed::from_raw(99_833));
    let mut nodes = Vec::new();
    for i in 0..5usize {
        let mut t = Transform2D::unit();
        t.rotation = turn;
        let parent = if i == 0 { None } else { Some(i - 1) };
        nodes.push(transform_node(parent, t, Size2::pixels(Fixed::from_int(10), Fixed::from_int(10))));
    }
    let out = propagate(&nodes, transform_root(), Fixed::from_int(16));
    assert_eq!(out.len(), 5);
    assert_eq!(out[0].rect.rotation.angle, Fixed::from_raw(100_000));
    assert_eq!(out[4].rect.rotation.angle, Fixed::from_raw(500_000));
}

#[test]
fn tree_is_resolved_parents_first() {
    let mut corner = Transform2D::unit();
    corner.anchor = Anchor::top_left();
    let nodes = vec![
        transform_node(None, Transform2D::unit(), Size2::percent(Fixed::from_int(50), Fixed::from_int(50))),
        transform_node(Some(0), corner, Size2::pixels(Fixed::from_int(10), Fixed::from_int(10))),
        transform_node(Some(7), corner, Size2::pixels(Fixed::from_int(10), Fixed::from_int(10))),
    ];
    let out = propagate(&nodes, transform_root(), Fixed::from_int(16));
    assert_eq!(out[0].data.size, Vec2::from_ints(100, 50));
    assert_eq!(out[0].rect.half_extent, Vec2::from_ints(50, 25));
    assert_eq!(out[1].rect.center, Vec2::from_ints(-45, 20));
    assert_eq!(out[2].rect.center, Vec2::from_ints(-95, 45));
    assert_eq!(out[1], nodes[1].resolve(out[0], Fixed::from_int(16)));
}

#[test]
fn font_size_is_handed_down() {
    let mut first = transform_node(None, Transform2D::unit(), Size2::em(Fixed::from_int(2), Fixed::from_int(1)));
    first.dimension = first.dimension.with_em(FontSize::Ems(Fixed::from_int(2)));
    let second = transform_node(Some(0), Transform2D::unit(), Size2::em(Fixed::from_int(1), Fixed::from_int(1)));
    let out = propagate(&vec![first, second], transform_root(), Fixed::from_int(10));
    assert_eq!(out[0].data.em, Fixed::from_int(32));
    assert_eq!(out[0].data.size, Vec2::from_ints(64, 32));
    assert_eq!(out[1].data.em, Fixed::from_int(32));
    assert_eq!(out[1].data.size, Vec2::from_ints(32, 32));
}

#[test]
fn stack_places_its_children_and_takes_their_size() {
    let mut stack = Node::new(None, Transform2D::unit(), Dimension::dynamic());
    stack.container = Some(Container {
        layout: Layout::Stack { direction: LayoutDir::LeftToRight, align: CrossAlign::Start },
        margin: Vec2::zero(),
        padding: Vec2::zero(),
        range: LayoutRange::all(),
    });
    let mut odd = Transform2D::unit();
    odd.anchor = Anchor::top_left();
    odd.offset = transform_px(500, 500);
    let mut free = transform_node(Some(0), odd, transform_px(4, 4));
    free.control = LayoutControl::IgnoreLayout;
    let nodes = vec![
        stack,
        transform_node(Some(0), odd, transform_px(10, 5)),
        free,
        transform_node(Some(0), Transform2D::unit(), transform_px(20, 8)),
        transform_node(Some(0), Transform2D::unit(), transform_px(30, 2)),
        transform_node(Some(3), Transform2D::unit(), transform_px(2, 2)),
    ];
    let out = propagate(&nodes, transform_root(), Fixed::from_int(16));
    assert_eq!(out[0].data.size, Vec2::from_ints(60, 8));
    assert_eq!(out[0].rect.half_extent, Vec2::from_ints(30, 4));
    assert_eq!(out[0].rect.center, Vec2::zero());
    assert_eq!(out[1].rect.center, Vec2::new(Fixed::from_int(-25), Fixed::from_raw(1_500_000)));
    assert_eq!(out[3].rect.center, Vec2::from_ints(-10, 0));
    assert_eq!(out[4].rect.center, Vec2::from_ints(15, 3));
    assert_eq!(out[1].rect.anchor(Anchor::center_left()).x, Fixed::from_int(-30));
    assert_eq!(out[3].rect.anchor(Anchor::center_left()).x, Fixed::from_int(-20));
    assert_eq!(out[4].rect.anchor(Anchor::center_left()).x, Fixed::from_int(0));
    assert_eq!(out[4].rect.anchor(Anchor::center_right()).x, Fixed::from_int(30));
    assert_eq!(out[2].rect.anchor(Anchor::top_left()), Vec2::from_ints(470, 504));
    assert_eq!(out[5].rect.center, Vec2::from_ints(-10, 0));
}

#[test]
fn container_of_stated_size_keeps_it() {
    let mut pad = transform_node(None, Transform2D::unit(), transform_px(100, 100));
    pad.container = Some(Container {
        layout: Layout::Padding,
        margin: Vec2::zero(),
        padding: Vec2::from_ints(3, 4),
        range: LayoutRange::all(),
    });
    let nodes = vec![pad, transform_node(Some(0), Transform2D::unit(), transform_px(10, 20))];
    let out = propagate(&nodes, transform_root(), Fixed::from_int(16));
    assert_eq!(out[0].data.size, Vec2::from_ints(100, 100));
    assert_eq!(out[1].rect.center, Vec2::zero());
    assert_eq!(out[1].rect.half_extent, Vec2::from_ints(5, 10));
}

#[test]
fn rotations_add_up_through_containers() {
    let turn = Rotation::new(Fixed::from_raw(100_000), Fixed::from_raw(995_004), Fixed::from_raw(99_833));
    let mut nodes = Vec::new();
    for i in 0..4usize {
        let mut t = Transform2D::unit();
        t.rotation = turn;
        let parent = if i == 0 { None } else { Some(i - 1) };
        let mut node = transform_node(parent, t, transform_px(10, 10));
        node.container = Some(Container {
            layout: Layout::Stack { direction: LayoutDir::TopToBottom, align: CrossAlign::Middle },
            margin: Vec2::zero(),
            padding: Vec2::from_ints(1, 1),
            range: LayoutRange::all(),
        });
        nodes.push(node);
    }
    let out = propagate(&nodes, transform_root(), Fixed::from_int(16));
    assert_eq!(out[3].rect.rotation.angle, Fixed::from_raw(400_000));
}
