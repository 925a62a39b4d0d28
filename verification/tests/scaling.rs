use rectray::fixed::Fixed;
use rectray::scaling::{FontSize, RectrayRem, Size, Size2, SizeUnit};
use rectray::vec2::Vec2;

fn scaling_fx(n: i32) -> Fixed {
    Fixed::from_int(n)
}

#[test]
fn percent_of_parent_resolves_to_half() {
    let size = Size2::percent(scaling_fx(50), scaling_fx(50));
    let parent = Vec2::from_ints(200, 100);
    let px = size.as_pixels(parent, scaling_fx(16), scaling_fx(16));
    assert_eq!(px, Vec2::from_ints(100, 50));
}

#[test]
fn pixels_resolve_to_themselves() {
    let r = SizeUnit::Pixels.as_pixels(scaling_fx(12), scaling_fx(200), scaling_fx(16), scaling_fx(10));
    assert_eq!(r, scaling_fx(12));
}

#[test]
fn em_multiplies_the_font_size() {
    let value = Fixed::from_raw(1_500_000);
    let r = SizeUnit::Em.as_pixels(value, scaling_fx(200), scaling_fx(16), scaling_fx(10));
    assert_eq!(r, scaling_fx(24));
}

#[test]
fn rem_multiplies_the_root_font_size() {
    let value = Fixed::from_raw(1_500_000);
    let r = SizeUnit::Rem.as_pixels(value, scaling_fx(200), scaling_fx(16), scaling_fx(10));
    assert_eq!(r, scaling_fx(15));
}

#[test]
fn percent_multiplies_the_parent() {
    let value = Fixed::from_raw(250_000);
    let r = SizeUnit::Percent.as_pixels(value, scaling_fx(200), scaling_fx(16), scaling_fx(10));
    assert_eq!(r, scaling_fx(50));
}

#[test]
fn margin_px_adds_to_parent() {
    let r = SizeUnit::MarginPx.as_pixels(scaling_fx(-4), scaling_fx(200), scaling_fx(16), scaling_fx(16));
    assert_eq!(r, scaling_fx(196));
}

#[test]
fn margin_em_adds_ems_to_parent() {
    let r = SizeUnit::MarginEm.as_pixels(scaling_fx(2), scaling_fx(200), scaling_fx(16), scaling_fx(10));
    assert_eq!(r, scaling_fx(232));
}

#[test]
fn margin_rem_adds_rems_to_parent() {
    let r = SizeUnit::MarginRem.as_pixels(scaling_fx(-2), scaling_fx(200), scaling_fx(16), scaling_fx(10));
    assert_eq!(r, scaling_fx(180));
}

#[test]
fn negative_sizes_are_kept() {
    let size = Size::new(SizeUnit::Pixels, scaling_fx(-30));
    assert_eq!(size.as_pixels(scaling_fx(100), scaling_fx(16), scaling_fx(16)), scaling_fx(-30));
}

#[test]
fn relative_units_are_those_that_read_the_parent() {
    assert!(!SizeUnit::Pixels.is_relative());
    assert!(!SizeUnit::Em.is_relative());
    assert!(!SizeUnit::Rem.is_relative());
    assert!(SizeUnit::Percent.is_relative());
    assert!(SizeUnit::MarginPx.is_relative());
    assert!(SizeUnit::MarginEm.is_relative());
    assert!(SizeUnit::MarginRem.is_relative());
}

#[test]
fn axes_resolve_independently() {
    let size = Size2::new(
        Size::new(SizeUnit::Em, scaling_fx(2)),
        Size::new(SizeUnit::MarginPx, scaling_fx(-10)),
    );
    let px = size.as_pixels(Vec2::from_ints(300, 80), scaling_fx(16), scaling_fx(20));
    assert_eq!(px, Vec2::from_ints(32, 70));
    assert_eq!(size.units(), (SizeUnit::Em, SizeUnit::MarginPx));
}

#[test]
fn size2_constructors() {
    assert_eq!(Size2::zero().raw(), Vec2::zero());
    assert_eq!(Size2::zero().units(), (SizeUnit::Pixels, SizeUnit::Pixels));
    assert_eq!(Size2::full().units(), (SizeUnit::Percent, SizeUnit::Percent));
    assert_eq!(Size2::full().raw(), Vec2::one());
    assert_eq!(Size2::pixels(scaling_fx(1), scaling_fx(2)).get_pixels(), Some(Vec2::from_ints(1, 2)));
    assert_eq!(Size2::em(scaling_fx(1), scaling_fx(2)).get_pixels(), None);
    assert_eq!(Size2::rem(scaling_fx(1), scaling_fx(2)).units(), (SizeUnit::Rem, SizeUnit::Rem));
    assert_eq!(Size2::splat(Size::new(SizeUnit::Em, scaling_fx(3))).raw(), Vec2::from_ints(3, 3));
    assert_eq!(Size2::from(Vec2::from_ints(5, 6)), Size2::pixels(scaling_fx(5), scaling_fx(6)));
    assert_eq!(Size2::default(), Size2::zero());
    assert_eq!(Size2::full().as_pixels(Vec2::from_ints(7, 9), scaling_fx(1), scaling_fx(1)), Vec2::from_ints(7, 9));
}

#[test]
fn raw_numbers_can_be_edited_in_place() {
    let mut size = Size2::em(scaling_fx(1), scaling_fx(2));
    *size.raw_mut() = Vec2::from_ints(4, 5);
    assert_eq!(size, Size2::em(scaling_fx(4), scaling_fx(5)));
    size.edit_raw(|v| v.plus(Vec2::from_ints(1, 1)));
    assert_eq!(size, Size2::em(scaling_fx(5), scaling_fx(6)));
}

#[test]
fn font_size_resolves_against_parent_and_root() {
    let parent = scaling_fx(20);
    let rem = scaling_fx(16);
    assert_eq!(FontSize::Inherit.resolve(parent, rem), scaling_fx(20));
    assert_eq!(FontSize::Pixels(scaling_fx(12)).resolve(parent, rem), scaling_fx(12));
    assert_eq!(FontSize::Ems(scaling_fx(2)).resolve(parent, rem), scaling_fx(40));
    assert_eq!(FontSize::Rems(scaling_fx(2)).resolve(parent, rem), scaling_fx(32));
    assert_eq!(FontSize::from(scaling_fx(9)), FontSize::Pixels(scaling_fx(9)));
    assert_eq!(FontSize::default(), FontSize::Inherit);
}

#[test]
fn font_size_number_can_be_changed() {
    let mut size = FontSize::Ems(scaling_fx(2));
    assert!(size.has_raw());
    *size.raw_mut() = scaling_fx(3);
    assert_eq!(size, FontSize::Ems(scaling_fx(3)));
    assert!(!FontSize::Inherit.has_raw());
}

#[test]
fn root_font_size_defaults_to_sixteen() {
    let mut rem = RectrayRem::default();
    assert_eq!(rem.get(), scaling_fx(16));
    rem.set(scaling_fx(20));
    assert_eq!(rem.get(), scaling_fx(20));
}
