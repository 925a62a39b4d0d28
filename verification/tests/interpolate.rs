use rectray::anim::assoc::{apply_interpolation, AtlasFrame, AttrItem, AttrReadOnlyItem,
    InterpolateAssociation};
use rectray::anim::easing::{unit_clamp, Easing};
use rectray::anim::repeat::Repeat;
use rectray::anim::interpolate::{lerp_fixed, lerp_index, lerp_vec2, Color, Coloring, Index,
    Interpolate, Offset, Opacity, Scale, Visibility};
use rectray::dimension::Dimension;
use rectray::fixed::Fixed;
use rectray::scaling::Size2;
use rectray::transform::Transform2D;
use rectray::vec2::Vec2;

fn interpolate_moving() -> Interpolate<Offset> {
    let mut it: Interpolate<Offset> = Interpolate::new(Easing::Linear, Vec2::zero(), Fixed::from_int(2));
    it.interpolate_to(Vec2::from_ints(10, 20));
    it
}

#[test]
fn new_interpolation_rests_at_its_position() {
    let it: Interpolate<Offset> = Interpolate::new(Easing::Linear, Vec2::from_ints(3, 4), Fixed::from_int(2));
    assert!(it.arrived());
    assert_eq!(it.get(), Vec2::from_ints(3, 4));
    assert_eq!(it.target(), Vec2::from_ints(3, 4));
    assert_eq!(it.source(), Vec2::from_ints(3, 4));
}

#[test]
fn value_follows_the_line_between_source_and_target() {
    let mut it = interpolate_moving();
    assert_eq!(it.get(), Vec2::zero());
    assert!(!it.update(Fixed::from_raw(500_000)));
    assert_eq!(it.get(), Vec2::new(Fixed::from_raw(2_500_000), Fixed::from_int(5)));
    assert!(!it.update(Fixed::from_raw(500_000)));
    assert_eq!(it.get(), Vec2::from_ints(5, 10));
}

#[test]
fn retargeting_does_not_jump() {
    let mut it = interpolate_moving();
    it.update(Fixed::from_raw(500_000));
    let before = it.get();
    it.interpolate_to(Vec2::from_ints(-10, 0));
    assert_eq!(it.get(), before);
    assert_eq!(it.source(), before);
    assert_eq!(it.target(), Vec2::from_ints(-10, 0));
    it.update(Fixed::from_int(1));
    assert_eq!(it.get(), Vec2::new(Fixed::from_raw(-3_750_000), Fixed::from_raw(2_500_000)));
}

#[test]
fn retargeting_to_the_same_target_changes_nothing() {
    let mut it = interpolate_moving();
    it.update(Fixed::from_int(1));
    it.interpolate_to(Vec2::from_ints(10, 20));
    assert_eq!(it.source(), Vec2::zero());
    assert_eq!(it.get(), Vec2::from_ints(5, 10));
}

#[test]
fn value_is_the_target_once_the_duration_has_passed() {
    let mut it = interpolate_moving();
    assert!(!it.update(Fixed::from_int(1)));
    assert!(it.update(Fixed::from_int(1)));
    assert!(it.arrived());
    assert_eq!(it.get(), Vec2::from_ints(10, 20));
    assert!(!it.update(Fixed::from_int(5)));
    assert_eq!(it.get(), Vec2::from_ints(10, 20));
}

#[test]
fn time_does_not_run_backwards() {
    let mut it = interpolate_moving();
    it.update(Fixed::from_int(1));
    it.update(Fixed::from_int(-1));
    assert_eq!(it.get(), Vec2::from_ints(5, 10));
}

#[test]
fn zero_duration_arrives_at_once() {
    let mut it: Interpolate<Offset> = Interpolate::new(Easing::Linear, Vec2::zero(), Fixed::from_int(-3));
    it.interpolate_to(Vec2::from_ints(1, 1));
    assert!(it.arrived());
    assert_eq!(it.get(), Vec2::from_ints(1, 1));
}

#[test]
fn set_and_take_target_put_the_value_at_rest() {
    let mut it = interpolate_moving();
    it.update(Fixed::from_int(1));
    assert_eq!(it.take_target(), Vec2::from_ints(10, 20));
    assert!(it.arrived());
    assert_eq!(it.get(), Vec2::from_ints(10, 20));
    it.interpolate_to(Vec2::zero());
    it.set(Vec2::from_ints(7, 7));
    assert!(it.arrived());
    assert_eq!(it.get(), Vec2::from_ints(7, 7));
    assert_eq!(it.target(), Vec2::from_ints(7, 7));
}

#[test]
fn sampled_curve_runs_straight_between_samples() {
    let curve = Easing::Sampled(vec![Fixed::zero(), Fixed::from_raw(100_000), Fixed::one()]);
    assert!(curve.is_wf());
    assert_eq!(curve.value(Fixed::zero()), Fixed::zero());
    assert_eq!(curve.value(Fixed::from_raw(250_000)), Fixed::from_raw(50_000));
    assert_eq!(curve.value(Fixed::from_raw(500_000)), Fixed::from_raw(100_000));
    assert_eq!(curve.value(Fixed::from_raw(750_000)), Fixed::from_raw(550_000));
    assert_eq!(curve.value(Fixed::one()), Fixed::one());
    assert_eq!(curve.value(Fixed::from_int(3)), Fixed::one());
    assert_eq!(curve.value(Fixed::from_int(-3)), Fixed::zero());
    assert_eq!(Easing::Linear.value(Fixed::from_raw(300_000)), Fixed::from_raw(300_000));
}

#[test]
fn unusable_curves_are_told_apart() {
    assert!(Easing::Linear.is_wf());
    assert!(!Easing::Sampled(vec![Fixed::zero()]).is_wf());
    assert!(!Easing::Sampled(vec![Fixed::one(), Fixed::one()]).is_wf());
    assert!(!Easing::Sampled(vec![Fixed::zero(), Fixed::zero()]).is_wf());
    assert_eq!(unit_clamp(Fixed::from_int(2)), Fixed::one());
}

#[test]
fn value_follows_a_sampled_curve() {
    let curve = Easing::Sampled(vec![Fixed::zero(), Fixed::from_raw(100_000), Fixed::one()]);
    let mut it: Interpolate<Scale> = Interpolate::new(curve, Vec2::zero(), Fixed::from_int(4));
    it.interpolate_to(Vec2::from_ints(100, 10));
    it.update(Fixed::from_int(1));
    assert_eq!(it.get(), Vec2::new(Fixed::from_int(5), Fixed::from_raw(500_000)));
    it.update(Fixed::from_int(2));
    assert_eq!(it.get(), Vec2::new(Fixed::from_int(55), Fixed::from_raw(5_500_000)));
}

#[test]
fn lerp_formulas() {
    assert_eq!(lerp_fixed(Fixed::from_int(10), Fixed::from_int(20), Fixed::from_raw(250_000)), Fixed::from_raw(12_500_000));
    assert_eq!(lerp_fixed(Fixed::from_int(10), Fixed::from_int(0), Fixed::from_raw(250_000)), Fixed::from_raw(7_500_000));
    assert_eq!(lerp_vec2(Vec2::zero(), Vec2::from_ints(4, 8), Fixed::from_raw(500_000)), Vec2::from_ints(2, 4));
    assert_eq!(lerp_index(2, 10, Fixed::from_raw(500_000)), 6);
    assert_eq!(lerp_index(10, 2, Fixed::from_raw(250_000)), 8);
    assert_eq!(lerp_index(2, 10, Fixed::from_int(5)), 10);
    assert_eq!(lerp_index(2, 5, Fixed::from_raw(499_999)), 3);
}

#[test]
fn frame_index_can_be_animated() {
    let mut it: Interpolate<Index> = Interpolate::new(Easing::Linear, 0, Fixed::from_int(1));
    it.interpolate_to(8);
    it.update(Fixed::from_raw(500_000));
    assert_eq!(it.get(), 4);
    let mut frame = AtlasFrame { index: 0 };
    apply_interpolation::<(AtlasFrame, Index)>(&mut frame, &it);
    assert_eq!(frame.index, 4);
}

#[test]
fn attribute_without_animation_writes_the_field() {
    let mut t = Transform2D::unit();
    {
        let mut item: AttrItem<Transform2D, Offset> = AttrItem { component: &mut t, interpolate: None };
        item.set(Vec2::from_ints(3, 4));
        assert_eq!(item.get(), Vec2::from_ints(3, 4));
        item.set_x(Fixed::from_int(9));
        assert_eq!(item.take(), Vec2::from_ints(9, 4));
        item.set_y(Fixed::from_int(1));
    }
    assert_eq!(t.offset, Size2::pixels(Fixed::from_int(9), Fixed::from_int(1)));
}

#[test]
fn attribute_with_animation_moves_the_target() {
    let mut t = Transform2D::unit();
    let mut anim: Interpolate<Offset> = Interpolate::new(Easing::Linear, Vec2::zero(), Fixed::from_int(1));
    {
        let mut item = AttrItem { component: &mut t, interpolate: Some(&mut anim) };
        item.set(Vec2::from_ints(10, 0));
        assert_eq!(item.get(), Vec2::zero());
        item.set_y(Fixed::from_int(6));
    }
    assert_eq!(t, Transform2D::unit());
    assert_eq!(anim.target(), Vec2::from_ints(10, 6));
    anim.update(Fixed::from_raw(500_000));
    {
        let mut item = AttrItem { component: &mut t, interpolate: Some(&mut anim) };
        assert_eq!(item.get(), Vec2::from_ints(5, 3));
        assert_eq!(item.take(), Vec2::from_ints(10, 6));
        assert_eq!(item.get(), Vec2::from_ints(10, 6));
    }
}

#[test]
fn force_set_writes_field_and_animation() {
    let mut t = Transform2D::unit();
    let mut anim: Interpolate<Offset> = Interpolate::new(Easing::Linear, Vec2::zero(), Fixed::from_int(1));
    anim.interpolate_to(Vec2::from_ints(10, 0));
    {
        let mut item = AttrItem { component: &mut t, interpolate: Some(&mut anim) };
        item.force_set(Vec2::from_ints(2, 2));
    }
    assert_eq!(t.offset.raw(), Vec2::from_ints(2, 2));
    assert!(anim.arrived());
    assert_eq!(anim.get(), Vec2::from_ints(2, 2));
}

#[test]
fn offset_in_pixels() {
    let mut t = Transform2D::unit();
    t.offset = Size2::em(Fixed::from_int(2), Fixed::from_int(1));
    {
        let item: AttrReadOnlyItem<Transform2D, Offset> = AttrReadOnlyItem { component: &t, interpolate: None };
        assert_eq!(item.get(), Vec2::from_ints(2, 1));
        assert_eq!(item.get_pixels(Vec2::from_ints(100, 100), Fixed::from_int(16), Fixed::from_int(16)), Vec2::from_ints(32, 16));
    }
    {
        let mut item: AttrItem<Transform2D, Offset> = AttrItem { component: &mut t, interpolate: None };
        assert_eq!(item.get_pixels(Vec2::from_ints(100, 100), Fixed::from_int(16), Fixed::from_int(16)), Vec2::from_ints(32, 16));
        item.force_set_pixels(Vec2::from_ints(7, 8));
    }
    assert_eq!(t.offset, Size2::pixels(Fixed::from_int(7), Fixed::from_int(8)));
}

#[test]
fn animation_is_applied_only_where_the_field_differs() {
    let mut dim = Dimension::owned(Size2::em(Fixed::from_int(1), Fixed::from_int(1)));
    let mut it: Interpolate<Dimension> = Interpolate::new(Easing::Linear, Vec2::from_ints(1, 1), Fixed::from_int(1));
    apply_interpolation::<(Dimension, Dimension)>(&mut dim, &it);
    assert_eq!(dim.raw(), Vec2::from_ints(1, 1));
    it.set(Vec2::from_ints(3, 2));
    apply_interpolation::<(Dimension, Dimension)>(&mut dim, &it);
    assert_eq!(dim, Dimension::owned(Size2::em(Fixed::from_int(3), Fixed::from_int(2))));
}

#[test]
fn opacity_and_colour() {
    let mut opacity = Opacity::new(Fixed::from_raw(500_000));
    assert_eq!(opacity.get(), Fixed::from_raw(500_000));
    assert!(!opacity.is_disabled());
    assert_eq!(opacity.visibility(), Visibility::Inherited);
    opacity.computed_opacity = Fixed::zero();
    assert_eq!(opacity.visibility(), Visibility::Hidden);
    let coloring = Coloring { color: Color::rgba(Fixed::one(), Fixed::zero(), Fixed::zero(), Fixed::from_raw(800_000)) };
    let faded = coloring.faded(&Opacity::new(Fixed::from_raw(500_000)));
    assert_eq!(faded, Color::rgba(Fixed::one(), Fixed::zero(), Fixed::zero(), Fixed::from_raw(400_000)));
}

#[test]
fn curve_with_too_few_samples() {
    assert_eq!(Easing::Sampled(vec![]).value(Fixed::from_raw(300_000)), Fixed::from_raw(300_000));
    assert_eq!(Easing::Sampled(vec![Fixed::from_int(7)]).value(Fixed::from_raw(300_000)), Fixed::from_int(7));
}

#[test]
fn frames_cycle() {
    let mut cycle = Repeat::new(2, 5, Fixed::from_raw(100_000));
    assert_eq!(cycle.index(), 2);
    cycle.update(Fixed::from_raw(250_000));
    assert_eq!(cycle.index(), 4);
    cycle.update(Fixed::from_raw(100_000));
    assert_eq!(cycle.index(), 5);
    cycle.update(Fixed::from_raw(100_000));
    assert_eq!(cycle.elapsed, Fixed::from_raw(50_000));
    assert_eq!(cycle.index(), 2);
    cycle.update(Fixed::from_raw(-100_000));
    assert_eq!(cycle.elapsed, Fixed::from_raw(50_000));
    cycle.update(Fixed::from_raw(4_000_000));
    assert_eq!(cycle.elapsed, Fixed::from_raw(50_000));
}

#[test]
fn cycle_that_stands_still() {
    let mut frozen = Repeat::new(3, 9, Fixed::zero());
    frozen.update(Fixed::from_int(5));
    assert_eq!(frozen.index(), 3);
    assert_eq!(frozen.elapsed, Fixed::zero());
    let mut single = Repeat::new(4, 1, Fixed::from_int(1));
    single.update(Fixed::from_raw(2_500_000));
    assert_eq!(single.index(), 4);
    assert_eq!(single.elapsed, Fixed::from_raw(500_000));
}

#[test]
fn field_follows_its_animation_to_the_target() {
    let mut t = Transform2D::unit();
    let mut it: Interpolate<Offset> = Interpolate::new(Easing::Linear, Vec2::zero(), Fixed::from_int(2));
    it.interpolate_to(Vec2::from_ints(8, 4));
    it.update(Fixed::from_int(1));
    apply_interpolation::<(Transform2D, Offset)>(&mut t, &it);
    assert_eq!(<(Transform2D, Offset)>::get(&t), Vec2::from_ints(4, 2));
    it.update(Fixed::from_int(1));
    apply_interpolation::<(Transform2D, Offset)>(&mut t, &it);
    assert_eq!(<(Transform2D, Offset)>::get(&t), Vec2::from_ints(8, 4));
    assert!(<(Transform2D, Offset)>::can_get(&t));
    assert!(<(Dimension, Dimension)>::can_get(&Dimension::owned(Size2::zero())));
    assert!(!<(Dimension, Dimension)>::can_get(&Dimension::copied()));
    assert!(!<(Dimension, Dimension)>::can_get(&Dimension::dynamic()));
}
