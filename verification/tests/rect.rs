use rectray::fixed::Fixed;
use rectray::rect::{Anchor, Hitbox, RotatedRect, Rotation};
use rectray::vec2::Vec2;

fn rect_quarter_turn() -> Rotation {
    Rotation::new(Fixed::from_raw(1_570_796), Fixed::zero(), Fixed::one())
}

#[test]
fn center_anchor_is_the_center() {
    let rect = RotatedRect::upright(Vec2::from_ints(10, -20), Vec2::from_ints(30, 40));
    assert_eq!(rect.anchor(Anchor::center()), Vec2::from_ints(10, -20));
    let mut turned = rect;
    turned.rotation = rect_quarter_turn();
    turned.scale = Vec2::from_ints(3, 2);
    assert_eq!(turned.anchor(Anchor::center()), Vec2::from_ints(10, -20));
}

#[test]
fn top_left_anchor_is_left_and_up_by_the_half_extent() {
    let rect = RotatedRect::upright(Vec2::from_ints(10, -20), Vec2::from_ints(30, 40));
    assert_eq!(rect.anchor(Anchor::top_left()), Vec2::from_ints(-20, 20));
    assert_eq!(rect.anchor(Anchor::bottom_right()), Vec2::from_ints(40, -60));
    assert_eq!(rect.anchor(Anchor::top_center()), Vec2::from_ints(10, 20));
    assert_eq!(rect.anchor(Anchor::center_left()), Vec2::from_ints(-20, -20));
    assert_eq!(rect.size(), Vec2::from_ints(60, 80));
}

#[test]
fn anchors_turn_and_scale_with_the_rectangle() {
    let mut rect = RotatedRect::upright(Vec2::from_ints(0, 0), Vec2::from_ints(10, 20));
    rect.rotation = rect_quarter_turn();
    assert_eq!(rect.anchor(Anchor::center_right()), Vec2::from_ints(0, 10));
    assert_eq!(rect.anchor(Anchor::top_center()), Vec2::from_ints(-20, 0));
    rect.scale = Vec2::from_ints(2, 1);
    assert_eq!(rect.anchor(Anchor::center_right()), Vec2::from_ints(0, 20));
}

#[test]
fn local_undoes_position_and_rotation() {
    let mut rect = RotatedRect::upright(Vec2::from_ints(5, 5), Vec2::from_ints(10, 20));
    rect.rotation = rect_quarter_turn();
    assert_eq!(rect.local(Vec2::from_ints(5, 15)), Vec2::from_ints(10, 0));
}

#[test]
fn rotations_compose() {
    let q = rect_quarter_turn();
    let half_turn = q.followed_by(q);
    assert_eq!(half_turn.angle, Fixed::from_raw(3_141_592));
    assert_eq!(half_turn.cos, Fixed::from_int(-1));
    assert_eq!(half_turn.sin, Fixed::zero());
    assert_eq!(Rotation::identity().followed_by(q), q);
    assert_eq!(q.apply(Vec2::from_ints(1, 0)), Vec2::from_ints(0, 1));
    assert_eq!(q.unapply(Vec2::from_ints(0, 1)), Vec2::from_ints(1, 0));
}

#[test]
fn inherit_defers_to_the_other_anchor() {
    assert!(Anchor::inherit().is_inherit());
    assert!(!Anchor::center().is_inherit());
    assert_eq!(Anchor::inherit().or(Anchor::top_left()), Anchor::top_left());
    assert_eq!(Anchor::center().or(Anchor::top_left()), Anchor::center());
    assert_eq!(Anchor::inherit().as_vec(), Vec2::zero());
    assert!(Anchor::bottom_left().is_normalized());
    assert!(!Anchor::custom(Fixed::from_int(1), Fixed::zero()).is_normalized());
}

#[test]
fn rectangle_hitbox_includes_its_border() {
    let rect = RotatedRect::upright(Vec2::from_ints(0, 0), Vec2::from_ints(10, 5));
    let hitbox = Hitbox::full();
    assert!(hitbox.contains(rect, Vec2::from_ints(0, 0)));
    assert!(hitbox.contains(rect, Vec2::from_ints(10, 5)));
    assert!(hitbox.contains(rect, Vec2::from_ints(-10, -5)));
    assert!(!hitbox.contains(rect, Vec2::from_ints(11, 0)));
    assert!(!hitbox.contains(rect, Vec2::from_ints(0, 6)));
    let large = Hitbox::rect(Vec2::from_ints(2, 2));
    assert!(large.contains(rect, Vec2::from_ints(20, 10)));
    assert!(!large.contains(rect, Vec2::from_ints(21, 10)));
}

#[test]
fn rectangle_hitbox_turns_with_the_rectangle() {
    let mut rect = RotatedRect::upright(Vec2::from_ints(0, 0), Vec2::from_ints(10, 2));
    rect.rotation = rect_quarter_turn();
    let hitbox = Hitbox::full();
    assert!(hitbox.contains(rect, Vec2::from_ints(0, 9)));
    assert!(!hitbox.contains(rect, Vec2::from_ints(9, 0)));
}

#[test]
fn ellipse_hitbox_leaves_out_the_corners() {
    let rect = RotatedRect::upright(Vec2::from_ints(0, 0), Vec2::from_ints(10, 5));
    let hitbox = Hitbox::ellipse(Vec2::one());
    assert!(hitbox.contains(rect, Vec2::from_ints(10, 0)));
    assert!(hitbox.contains(rect, Vec2::from_ints(0, 5)));
    assert!(hitbox.contains(rect, Vec2::from_ints(6, 4)));
    assert!(!hitbox.contains(rect, Vec2::from_ints(9, 4)));
    assert!(!hitbox.contains(rect, Vec2::from_ints(10, 5)));
}
