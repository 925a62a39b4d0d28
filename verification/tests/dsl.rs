use rectray::anim::interpolate::{Color, Opacity};
use rectray::dimension::DimensionType;
use rectray::dsl::builders::{line_break, BreakLineOn, FrameBuilder, MInputBuilder, MToggleBuilder,
    WidgetKind};
use rectray::dsl::convert::{parse, DslFrom, DslInto};
use rectray::dsl::converters::{AssetSource, IntoAsset, OptionEx};
use rectray::dsl::split::{into_children, CloneSplit};
use rectray::dsl::widgets::{cursor_for, settle, white, AsyncFailure, ButtonBuilder,
    CheckButtonBuilder, ConfigError, CursorIcon, InputBoxBuilder, RadioButtonBuilder,
    RequiredField, SetCursor, TextBuilder};
use rectray::signals::object::Object;
use rectray::signals::pool::Signal;
use rectray::widgets::toggle::CheckButtonState;
use rectray::dsl::util::{degrees, em, percent, px, rem, Aspect, OneOrTwo, ParentAnchor, Scale,
    SpacialConst, TextFragment, WidgetWrite};
use rectray::events::cursor::NodeId;
use rectray::events::flags::{EventFlags, CLICK_OUTSIDE, DOUBLE_CLICK, DROP, HOVER, LEFT_CLICK,
    LEFT_DRAG, LEFT_PRESSED};
use rectray::fixed::Fixed;
use rectray::layout::{Alignment, Container, CrossAlign, Layout, LayoutDir, LayoutRange};
use rectray::rect::{Anchor, Hitbox, Rotation};
use rectray::scaling::{FontSize, Size, Size2, SizeUnit};
use rectray::vec2::Vec2;
use rectray::widgets::colors::Palette;
use rectray::widgets::shadow::ShadowInfo;
use rectray::widgets::material::{Corners, RoundedRectangleMaterial};
use rectray::widgets::toggle::ToggleColors;

fn dsl_grey(level: i32) -> Color {
    let v = Fixed::from_raw(level as i64 * 100_000);
    Color::rgba(v, v, v, Fixed::one())
}

fn dsl_palette(base: i32) -> Palette {
    Palette {
        background: dsl_grey(base),
        foreground: dsl_grey(base + 1),
        stroke: dsl_grey(base + 2),
        foreground_stroke: dsl_grey(base + 3),
        on_foreground: dsl_grey(base + 4),
    }
}

fn dsl_frame() -> FrameBuilder {
    FrameBuilder {
        anchor: Anchor::top_left(),
        parent_anchor: ParentAnchor::default(),
        center: Anchor::inherit(),
        offset: Size2::pixels(Fixed::from_int(1), Fixed::from_int(2)),
        rotation: Rotation::identity(),
        scale: Scale::default(),
        z: Fixed::from_int(3),
        dimension: DimensionType::Copied,
        font_size: FontSize::Inherit,
        aspect: Aspect::default(),
        event: EventFlags::empty(),
        hitbox: None,
        layout: None,
        margin: OneOrTwo(Vec2::from_ints(1, 1)),
        padding: OneOrTwo(Vec2::from_ints(2, 2)),
        children_range: LayoutRange::all(),
        clipping: None,
        opacity: Opacity::new(Fixed::one()),
    }
}

#[test]
fn option_ex_behaves_like_an_option() {
    let some = OptionEx::Given(5);
    let none: OptionEx<i32> = OptionEx::Absent;
    assert_eq!(some.expect("a value"), 5);
    assert_eq!(some.unwrap_or(9), 5);
    assert_eq!(none.unwrap_or(9), 9);
    assert_eq!(some.unwrap_or_else(|| 7), 5);
    assert_eq!(none.unwrap_or_else(|| 7), 7);
    assert_eq!(some.into_option(), Some(5));
    assert_eq!(none.into_option(), None);
    assert_eq!(OptionEx::<i32>::default(), OptionEx::Absent);
}

#[test]
fn option_ex_accepts_plain_values() {
    let shadow: OptionEx<ShadowInfo> = parse::<_, _, 5>(4);
    assert_eq!(shadow, OptionEx::Given(ShadowInfo { size: Fixed::from_int(4), color: Color::black(), darken: Fixed::zero() }));
    let tinted: OptionEx<ShadowInfo> = parse::<_, _, 5>((dsl_grey(3), Fixed::from_int(2)));
    assert_eq!(tinted, OptionEx::Given(ShadowInfo { size: Fixed::from_int(2), color: dsl_grey(3), darken: Fixed::zero() }));
    let swapped: OptionEx<ShadowInfo> = parse::<_, _, 5>((7, dsl_grey(1)));
    assert_eq!(swapped.into_option().unwrap().size, Fixed::from_int(7));
}

#[test]
fn names_become_anchors_alignments_and_directions() {
    assert_eq!(Anchor::dfrom(SpacialConst::TopLeft), Anchor::top_left());
    assert_eq!(Anchor::dfrom(SpacialConst::Top), Anchor::top_center());
    assert_eq!(Anchor::dfrom(SpacialConst::Left), Anchor::center_left());
    assert_eq!(Anchor::dfrom(SpacialConst::BottomRight), Anchor::bottom_right());
    assert_eq!(<Option<Anchor>>::dfrom(SpacialConst::Center), Some(Anchor::center()));
    assert_eq!(Alignment::dfrom(SpacialConst::Bottom), Alignment::Bottom);
    assert_eq!(<Option<Alignment>>::dfrom(SpacialConst::Center), Some(Alignment::Center));
    assert_eq!(LayoutDir::dfrom(SpacialConst::TopToBottom), LayoutDir::TopToBottom);
    assert_eq!(<Option<LayoutDir>>::dfrom(SpacialConst::RightToLeft), Some(LayoutDir::RightToLeft));
    assert_eq!(rectray::systems::SpriteAnchor::dfrom(SpacialConst::Top), rectray::systems::SpriteAnchor::TopCenter);
    let anchor: Anchor = SpacialConst::Right.dinto();
    assert_eq!(anchor, Anchor::center_right());
    let parsed: Anchor = parse::<_, _, 0>(SpacialConst::Bottom);
    assert_eq!(parsed, Anchor::bottom_center());
    assert!(SpacialConst::Left.is_anchor());
    assert!(SpacialConst::Left.is_alignment());
    assert!(!SpacialConst::Left.is_direction());
    assert!(!SpacialConst::LeftToRight.is_anchor());
    assert!(SpacialConst::LeftToRight.is_direction());
    assert!(!SpacialConst::TopLeft.is_alignment());
}

#[test]
fn one_number_counts_for_two() {
    assert_eq!(<OneOrTwo<Vec2>>::dfrom(3), OneOrTwo(Vec2::from_ints(3, 3)));
    assert_eq!(<OneOrTwo<Vec2>>::dfrom(Fixed::from_int(2)), OneOrTwo(Vec2::from_ints(2, 2)));
    assert_eq!(<OneOrTwo<Size2>>::dfrom(3), OneOrTwo(Size2::pixels(Fixed::from_int(3), Fixed::from_int(3))));
    assert_eq!(<OneOrTwo<Size2>>::dfrom(em(Fixed::from_int(2))), OneOrTwo(Size2::em(Fixed::from_int(2), Fixed::from_int(2))));
    assert_eq!(Scale::dfrom(2), Scale(Vec2::from_ints(2, 2)));
    assert_eq!(Scale::default(), Scale(Vec2::one()));
    assert_eq!(ParentAnchor::default(), ParentAnchor(Anchor::Inherit));
    assert_eq!(ParentAnchor::from(Anchor::center()), ParentAnchor(Anchor::center()));
    let wrapped: ParentAnchor = parse::<_, _, 4>(SpacialConst::TopRight);
    assert_eq!(wrapped, ParentAnchor(Anchor::top_right()));
    assert_eq!(Aspect::dfrom(2), Aspect::Owned(Fixed::from_int(2)));
    assert_eq!(Aspect::default(), Aspect::Free);
}

#[test]
fn sizes_by_unit() {
    assert_eq!(px(Fixed::from_int(3)), Size::new(SizeUnit::Pixels, Fixed::from_int(3)));
    assert_eq!(em(Fixed::from_int(3)), Size::new(SizeUnit::Em, Fixed::from_int(3)));
    assert_eq!(rem(Fixed::from_int(3)), Size::new(SizeUnit::Rem, Fixed::from_int(3)));
    assert_eq!(percent(Fixed::from_int(40)), Size::new(SizeUnit::Percent, Fixed::from_raw(400_000)));
    assert_eq!(FontSize::dfrom(px(Fixed::from_int(3))), FontSize::Pixels(Fixed::from_int(3)));
    assert_eq!(FontSize::dfrom(em(Fixed::from_int(3))), FontSize::Ems(Fixed::from_int(3)));
    assert_eq!(FontSize::dfrom(rem(Fixed::from_int(3))), FontSize::Rems(Fixed::from_int(3)));
}

#[test]
fn degrees_become_radians() {
    assert_eq!(degrees(Fixed::from_int(180)), Fixed::from_raw(3_141_592));
    assert_eq!(degrees(Fixed::from_int(90)), Fixed::from_raw(1_570_796));
    assert_eq!(degrees(Fixed::from_int(-90)), Fixed::from_raw(-1_570_796));
    assert_eq!(degrees(Fixed::zero()), Fixed::zero());
}

#[test]
fn one_value_is_split_into_clones() {
    let one: i32 = CloneSplit::clone_split(5);
    assert_eq!(one, 5);
    let two: (String, String) = CloneSplit::clone_split(String::from("a"));
    assert_eq!(two, (String::from("a"), String::from("a")));
    let three: (u8, u8, u8) = CloneSplit::clone_split(7u8);
    assert_eq!(three, (7, 7, 7));
}

#[test]
fn children_come_as_one_maybe_one_or_many() {
    assert_eq!(into_children(NodeId(4)), vec![NodeId(4)]);
    assert_eq!(into_children(Some(NodeId(4))), vec![NodeId(4)]);
    assert_eq!(into_children(None::<NodeId>), Vec::<NodeId>::new());
    assert_eq!(into_children(vec![NodeId(1), NodeId(2)]), vec![NodeId(1), NodeId(2)]);
}

#[test]
fn assets_are_named_in_four_ways() {
    let none: IntoAsset<u8, u32> = IntoAsset::default();
    assert!(none.is_none());
    assert!(!none.is_some());
    assert_eq!(none.clone().try_load(), None);
    assert_eq!(none.load_or_default(), AssetSource::Default);
    let raw: IntoAsset<u8, u32> = IntoAsset::Raw(7);
    assert!(raw.is_some());
    assert_eq!(raw.clone().try_load(), Some(AssetSource::Add(7)));
    assert_eq!(raw.load_or_panic("an asset"), AssetSource::Add(7));
    let handle: IntoAsset<u8, u32> = IntoAsset::Handle(9);
    assert_eq!(handle.load_or_default(), AssetSource::Handle(9));
    let path: IntoAsset<u8, u32> = IntoAsset::Path(String::from("a.png"));
    assert_eq!(path.try_load(), Some(AssetSource::Load(String::from("a.png"))));
}

#[test]
fn text_can_be_written_to_a_fragment() {
    let fragment = TextFragment { text: String::from("old") };
    let written = fragment.write(format!("{}-{}", "new", 1));
    assert_eq!(written.text, "new-1");
}

#[test]
fn frame_without_events_or_layout() {
    let plan = dsl_frame().plan();
    assert_eq!(plan.transform.anchor, Anchor::top_left());
    assert_eq!(plan.transform.parent_anchor, Anchor::Inherit);
    assert_eq!(plan.transform.offset, Size2::pixels(Fixed::from_int(1), Fixed::from_int(2)));
    assert_eq!(plan.transform.scale, Vec2::one());
    assert_eq!(plan.transform.z, Fixed::from_int(3));
    assert_eq!(plan.dimension.dimension, DimensionType::Copied);
    assert!(!plan.dimension.preserve_aspect);
    assert!(!plan.clipping);
    assert_eq!(plan.event, None);
    assert_eq!(plan.hitbox, None);
    assert_eq!(plan.container, None);
}

#[test]
fn frame_with_events_gets_a_hitbox() {
    let mut frame = dsl_frame();
    frame.event = EventFlags::of(HOVER);
    let plan = frame.plan();
    assert_eq!(plan.event, Some(EventFlags::of(HOVER)));
    assert_eq!(plan.hitbox, Some(Hitbox::full()));
    frame.hitbox = Some(Hitbox::ellipse(Vec2::one()));
    assert_eq!(frame.plan().hitbox, Some(Hitbox::ellipse(Vec2::one())));
}

#[test]
fn frame_with_layout_cannot_copy_its_size() {
    let mut frame = dsl_frame();
    let layout = Layout::Stack { direction: LayoutDir::LeftToRight, align: CrossAlign::Middle };
    frame.layout = Some(layout);
    frame.aspect = Aspect::Preserve;
    frame.clipping = Some(true);
    let plan = frame.plan();
    assert_eq!(plan.dimension.dimension, DimensionType::Dynamic);
    assert!(plan.dimension.preserve_aspect);
    assert!(plan.clipping);
    assert_eq!(
        plan.container,
        Some(Container { layout, margin: Vec2::from_ints(1, 1), padding: Vec2::from_ints(2, 2), range: LayoutRange::all() })
    );
    let owned = DimensionType::Owned(Size2::full());
    frame.dimension = owned;
    assert_eq!(frame.plan().dimension.dimension, owned);
}

#[test]
fn widgets_bring_their_own_events() {
    assert_eq!(WidgetKind::Button.events(EventFlags::of(DROP)), EventFlags::of(DROP | HOVER | LEFT_CLICK));
    assert_eq!(WidgetKind::CheckButton.own_events(), EventFlags::of(HOVER | LEFT_CLICK));
    assert_eq!(WidgetKind::RadioButton.own_events(), EventFlags::of(HOVER | LEFT_CLICK));
    assert_eq!(WidgetKind::Toggle.own_events(), EventFlags::of(HOVER | LEFT_CLICK));
    assert_eq!(WidgetKind::InputBox.own_events(), EventFlags::of(HOVER | DOUBLE_CLICK | LEFT_DRAG | CLICK_OUTSIDE));
    assert_eq!(WidgetKind::Input.own_events(), EventFlags::of(HOVER | LEFT_DRAG));
    assert_eq!(WidgetKind::Button.cursor_flags(), EventFlags::of(HOVER | LEFT_PRESSED));
    assert_eq!(WidgetKind::InputBox.cursor_flags(), EventFlags::of(HOVER | LEFT_DRAG));
}

#[test]
fn text_breaks_as_told_or_by_wrap() {
    assert_eq!(line_break(Some(BreakLineOn::AnyCharacter), false), BreakLineOn::AnyCharacter);
    assert_eq!(line_break(None, true), BreakLineOn::WordBoundary);
    assert_eq!(line_break(None, false), BreakLineOn::NoWrap);
}

#[test]
fn toggle_with_defaults() {
    let builder = MToggleBuilder {
        frame: dsl_frame(),
        cursor: None,
        payload: None,
        on_checked: None,
        on_toggle: None,
        checked: false,
        length: None,
        palette: dsl_palette(0),
        checked_palette: None,
        background_size: None,
        dial_size: None,
        checked_size: None,
        icon: false,
        icon_checked: false,
        background_stroke: Fixed::from_int(1),
        dial_stroke: Fixed::from_int(2),
        shadow: OptionEx::Absent,
        dial_shadow: OptionEx::Given(ShadowInfo { size: Fixed::from_int(4), color: Color::black(), darken: Fixed::zero() }),
    };
    let plan = builder.plan();
    assert_eq!(plan.dimension, Size2::em(Fixed::from_raw(3_250_000), Fixed::from_int(2)));
    assert_eq!(plan.background_size, Size2::full());
    assert_eq!(plan.active, dsl_palette(0));
    assert_eq!(plan.background, ToggleColors { inactive: dsl_grey(0), active: dsl_grey(0) });
    assert_eq!(plan.dial.inactive_offset, Vec2::new(Fixed::from_raw(-625_000), Fixed::zero()));
    assert_eq!(plan.dial.active_offset, Vec2::new(Fixed::from_raw(625_000), Fixed::zero()));
    assert_eq!(plan.dial.inactive_dimension, Vec2::splat(Fixed::from_raw(1_400_000)));
    assert_eq!(plan.dial.active_dimension, Vec2::splat(Fixed::from_raw(1_400_000)));
    assert_eq!(plan.initial_offset, plan.dial.inactive_offset);
    assert_eq!(plan.initial_dimension, plan.dial.inactive_dimension);
    assert_eq!(plan.icon, None);
    assert_eq!(plan.icon_checked, None);
    assert_eq!(plan.background_material, RoundedRectangleMaterial::capsule(dsl_grey(0)).with_stroke(dsl_grey(2), Fixed::from_int(1)));
    assert_eq!(plan.dial_material, RoundedRectangleMaterial::capsule(dsl_grey(1)).with_stroke(dsl_grey(3), Fixed::from_int(2)));
    assert_eq!(plan.shadow, None);
    let shadow = plan.dial_shadow.unwrap();
    assert_eq!(shadow.blur, Fixed::from_int(4));
    assert_eq!(shadow.corner, None);
    assert_eq!(shadow.dimension.raw(), Vec2::from_ints(8, 8));
    assert_eq!(plan.background_z, Fixed::from_raw(10_000));
    assert_eq!(plan.dial_z, Fixed::from_raw(20_000));
    assert_eq!(plan.icon_size, Size2::percent(Fixed::from_raw(66_600_000), Fixed::from_raw(66_600_000)));
    assert_eq!(plan.transition, Fixed::from_raw(250_000));
}

#[test]
fn toggle_that_starts_checked_with_two_icons() {
    let builder = MToggleBuilder {
        frame: dsl_frame(),
        cursor: None,
        payload: None,
        on_checked: None,
        on_toggle: None,
        checked: true,
        length: Some(Fixed::from_int(2)),
        palette: dsl_palette(0),
        checked_palette: Some(dsl_palette(5)),
        background_size: Some(Fixed::from_int(1)),
        dial_size: Some(Fixed::from_int(1)),
        checked_size: Some(Fixed::from_raw(1_200_000)),
        icon: true,
        icon_checked: true,
        background_stroke: Fixed::from_int(1),
        dial_stroke: Fixed::from_int(2),
        shadow: OptionEx::Absent,
        dial_shadow: OptionEx::Given(ShadowInfo { size: Fixed::from_int(4), color: Color::black(), darken: Fixed::zero() }),
    };
    let plan = builder.plan();
    assert_eq!(plan.dimension, Size2::em(Fixed::from_int(4), Fixed::from_int(2)));
    assert_eq!(plan.background_size, Size2::em(Fixed::from_int(3), Fixed::from_int(1)));
    assert_eq!(plan.active, dsl_palette(5));
    assert_eq!(plan.background_stroke, ToggleColors { inactive: dsl_grey(2), active: dsl_grey(7) });
    assert_eq!(plan.foreground, ToggleColors { inactive: dsl_grey(1), active: dsl_grey(6) });
    assert_eq!(plan.foreground_stroke, ToggleColors { inactive: dsl_grey(3), active: dsl_grey(8) });
    assert_eq!(plan.initial_offset, Vec2::from_ints(1, 0));
    assert_eq!(plan.initial_dimension, Vec2::splat(Fixed::from_raw(1_200_000)));
    assert_eq!(plan.icon, Some((Color::none(), ToggleColors { inactive: dsl_grey(4), active: Color::none() })));
    assert_eq!(plan.icon_checked, Some((dsl_grey(9), ToggleColors { inactive: Color::none(), active: dsl_grey(9) })));
    let mut single = builder;
    single.icon_checked = false;
    assert_eq!(single.plan().icon, Some((dsl_grey(9), ToggleColors { inactive: dsl_grey(4), active: dsl_grey(9) })));
}

#[test]
fn input_field_plan() {
    let builder = MInputBuilder {
        frame: dsl_frame(),
        cursor_icon: None,
        on_change: None,
        on_submit: None,
        has_placeholder: true,
        width: Fixed::from_int(10),
        palette: dsl_palette(0),
        focus_palette: Some(dsl_palette(5)),
        disabled_palette: None,
        bottom_bar: Some(Fixed::from_raw(100_000)),
        stroke: Fixed::from_int(1),
        capsule: false,
        radius: Fixed::from_int(3),
        shadow: OptionEx::Given(ShadowInfo { size: Fixed::from_int(4), color: Color::black(), darken: Fixed::zero() }),
        cancel: Some(NodeId(8)),
    };
    let plan = builder.plan();
    assert_eq!(plan.dimension, Size2::em(Fixed::from_int(10), Fixed::from_raw(2_800_000)));
    assert_eq!(plan.text_width, Size::new(SizeUnit::MarginEm, Fixed::from_raw(-1_600_000)));
    assert_eq!(plan.text_offset, Size2::em(Fixed::from_raw(800_000), Fixed::from_raw(-400_000)));
    assert_eq!(plan.colors.idle, dsl_grey(0));
    assert_eq!(plan.colors.focused, dsl_grey(5));
    assert_eq!(plan.colors.disabled, dsl_grey(0));
    assert_eq!(plan.text_color, dsl_grey(1));
    assert_eq!(plan.placeholder, Some((dsl_grey(1), dsl_grey(6))));
    assert_eq!(
        plan.bottom_bar,
        Some(Size2::new(Size::new(SizeUnit::Percent, Fixed::one()), Size::new(SizeUnit::Em, Fixed::from_raw(100_000))))
    );
    assert_eq!(plan.material.corners, Corners::splat(Fixed::from_int(3)));
    assert!(!plan.material.capsule);
    assert_eq!(plan.material.color, dsl_grey(0));
    assert_eq!(plan.material.stroke_color, dsl_grey(2));
    assert_eq!(plan.material.stroke_size, Fixed::from_int(1));
    assert_eq!(plan.shadow.unwrap().corner, Some(Fixed::from_int(3)));
    assert_eq!(plan.cancel, Some(NodeId(8)));
    let mut plain = builder;
    plain.has_placeholder = false;
    plain.bottom_bar = None;
    plain.capsule = true;
    assert!(plain.plan().material.capsule);
    assert_eq!(plain.plan().material.corners, Corners::splat(Fixed::zero()));
    assert_eq!(plain.plan().shadow.unwrap().corner, None);
    let plan = plain.plan();
    assert_eq!(plan.text_offset, Size2::em(Fixed::from_raw(800_000), Fixed::zero()));
    assert_eq!(plan.placeholder, None);
    assert_eq!(plan.bottom_bar, None);
    assert_eq!(plan.z, Fixed::from_raw(10_000));
    assert_eq!(plan.cursor_bar, Size2::em(Fixed::from_raw(150_000), Fixed::from_raw(1_200_000)));
    assert_eq!(plan.cursor_bar_z, Fixed::from_raw(5_000));
    assert_eq!(plan.cursor_area.units(), (SizeUnit::Pixels, SizeUnit::Em));
    assert_eq!(plan.cursor_area.raw(), Vec2::new(Fixed::zero(), Fixed::from_raw(1_200_000)));
    assert_eq!(plan.cursor_area_z, Fixed::from_raw(-5_000));
    assert_eq!(plan.placeholder_offset, Size2::em(Fixed::from_raw(800_000), Fixed::zero()));
    assert_eq!(plan.transition, Fixed::from_raw(150_000));
}

#[test]
fn buttons_hover_and_click() {
    let handle = Signal { slot: 3, seen: 0 };
    let plan = ButtonBuilder { event: EventFlags::of(DROP), cursor: None, on_click: Some(handle), payload: Some(Object::Int(4)) }.plan();
    assert_eq!(plan.event, EventFlags::of(DROP | HOVER | LEFT_CLICK));
    assert_eq!(plan.cursor, SetCursor { flags: EventFlags::of(HOVER | LEFT_PRESSED), icon: CursorIcon::Pointer });
    assert_eq!(plan.payload, Some(Object::Int(4)));
    assert_eq!(plan.click_sender, Some(handle));
    let check = CheckButtonBuilder {
        event: EventFlags::empty(),
        cursor: Some(CursorIcon::Hand),
        payload: None,
        on_checked: None,
        on_change: Some(handle),
        checked: true,
    }
    .plan();
    assert_eq!(check.event, EventFlags::of(HOVER | LEFT_CLICK));
    assert_eq!(check.cursor.icon, CursorIcon::Hand);
    assert_eq!(check.state, CheckButtonState::Checked);
    assert_eq!(check.change_sender, Some(handle));
    assert_eq!(check.click_sender, None);
    assert_eq!(cursor_for(WidgetKind::Toggle, None).icon, CursorIcon::Hand);
    assert_eq!(cursor_for(WidgetKind::InputBox, None), SetCursor { flags: EventFlags::of(HOVER | LEFT_DRAG), icon: CursorIcon::Text });
}

#[test]
fn radio_button_needs_group_and_value() {
    let mut builder = RadioButtonBuilder {
        event: EventFlags::empty(),
        cursor: None,
        context: None,
        cancellable: true,
        value: None,
        on_click: None,
    };
    assert_eq!(builder.plan().unwrap_err(), ConfigError::Missing(RequiredField::Context));
    builder.context = Some(NodeId(5));
    assert_eq!(builder.plan().unwrap_err(), ConfigError::Missing(RequiredField::Value));
    builder.value = Some(Object::Flag(true));
    let plan = builder.plan().unwrap();
    assert_eq!(plan.context, NodeId(5));
    assert_eq!(plan.value, Object::Flag(true));
    assert!(plan.cancellable);
    assert_eq!(ConfigError::Missing(RequiredField::Context).message(), "Expected RadioButton context.");
    assert_eq!(ConfigError::Missing(RequiredField::Value).message(), "Expected RadioButton value.");
}

#[test]
fn input_box_needs_colour_bar_and_area() {
    let mut builder = InputBoxBuilder {
        event: EventFlags::empty(),
        color: None,
        width: None,
        text_area: Some(NodeId(1)),
        cursor_bar: None,
        cursor_area: None,
        on_change: None,
        on_submit: None,
        cursor_icon: None,
    };
    assert_eq!(builder.plan().unwrap_err(), ConfigError::Missing(RequiredField::Color));
    builder.color = Some(white());
    assert_eq!(builder.plan().unwrap_err(), ConfigError::Missing(RequiredField::CursorBar));
    builder.cursor_bar = Some(NodeId(2));
    assert_eq!(builder.plan().unwrap_err(), ConfigError::Missing(RequiredField::CursorArea));
    builder.cursor_area = Some(NodeId(3));
    let plan = builder.plan().unwrap();
    assert_eq!(plan.event, EventFlags::of(HOVER | DOUBLE_CLICK | LEFT_DRAG | CLICK_OUTSIDE));
    assert_eq!(plan.width, Size::new(SizeUnit::Percent, Fixed::one()));
    assert_eq!(plan.cursor.icon, CursorIcon::Text);
    assert_eq!(plan.cursor_bar, NodeId(2));
    assert_eq!(plan.cursor_area, NodeId(3));
    assert_eq!(plan.text_area, Some(NodeId(1)));
    assert_eq!(ConfigError::Missing(RequiredField::Color).message(), "color is required.");
    assert_eq!(ConfigError::Missing(RequiredField::CursorBar).message(), "cursor_bar is required.");
    assert_eq!(ConfigError::Missing(RequiredField::CursorArea).message(), "cursor_area is required.");
}

#[test]
fn text_defaults_to_white_and_unbounded() {
    let plan = TextBuilder { color: None, bounds: None, wrap: true, break_line_on: None }.plan();
    assert_eq!(plan.color, white());
    assert_eq!(plan.bounds, None);
    assert_eq!(plan.linebreak_behavior, BreakLineOn::WordBoundary);
    let told = TextBuilder { color: Some(Color::black()), bounds: Some(Vec2::from_ints(3, 4)), wrap: true, break_line_on: Some(BreakLineOn::NoWrap) }.plan();
    assert_eq!(told.color, Color::black());
    assert_eq!(told.bounds, Some(Vec2::from_ints(3, 4)));
    assert_eq!(told.linebreak_behavior, BreakLineOn::NoWrap);
}

#[test]
fn requests_settle_into_answer_or_failure() {
    assert_eq!(settle(Some(Some(5))), Ok(5));
    assert_eq!(settle::<i32>(Some(None)), Err(AsyncFailure::ComponentNotFound));
    assert_eq!(settle::<i32>(None), Err(AsyncFailure::ChannelClosed));
}

#[test]
fn widget_frames_always_react() {
    let plain = WidgetKind::Button.frame(dsl_frame());
    assert_eq!(plain.event, Some(EventFlags::of(HOVER | LEFT_CLICK)));
    assert_eq!(plain.hitbox, Some(Hitbox::full()));
    assert_eq!(plain.transform.anchor, Anchor::top_left());
    let mut described = dsl_frame();
    described.event = EventFlags::of(DROP);
    described.hitbox = Some(Hitbox::ellipse(Vec2::one()));
    let shaped = WidgetKind::Input.frame(described);
    assert_eq!(shaped.event, Some(EventFlags::of(DROP | HOVER | LEFT_DRAG)));
    assert_eq!(shaped.hitbox, Some(Hitbox::ellipse(Vec2::one())));
}

#[test]
fn toggle_frame_has_the_size_of_the_toggle() {
    let handle = Signal { slot: 2, seen: 0 };
    let mut frame = dsl_frame();
    frame.dimension = DimensionType::Owned(Size2::full());
    frame.font_size = FontSize::Pixels(Fixed::from_int(9));
    let builder = MToggleBuilder {
        frame,
        cursor: None,
        payload: Some(Object::Int(1)),
        on_checked: Some(handle),
        on_toggle: None,
        checked: true,
        length: Some(Fixed::from_int(2)),
        palette: dsl_palette(0),
        checked_palette: None,
        background_size: None,
        dial_size: None,
        checked_size: None,
        icon: false,
        icon_checked: false,
        background_stroke: Fixed::from_int(1),
        dial_stroke: Fixed::from_int(2),
        shadow: OptionEx::Absent,
        dial_shadow: OptionEx::Given(ShadowInfo { size: Fixed::from_int(4), color: Color::black(), darken: Fixed::zero() }),
    };
    let node = builder.frame();
    assert_eq!(node.frame.dimension.dimension, DimensionType::Owned(Size2::em(Fixed::from_int(4), Fixed::from_int(2))));
    assert_eq!(node.frame.dimension.font_size, FontSize::Inherit);
    assert_eq!(node.frame.event, Some(EventFlags::of(HOVER | LEFT_CLICK)));
    assert_eq!(node.frame.hitbox, Some(Hitbox::full()));
    assert_eq!(node.frame.transform.z, Fixed::from_int(3));
    assert_eq!(node.state, CheckButtonState::Checked);
    assert_eq!(node.cursor, SetCursor { flags: EventFlags::of(HOVER | LEFT_PRESSED), icon: CursorIcon::Hand });
    assert_eq!(node.payload, Some(Object::Int(1)));
    assert_eq!(node.click_sender, Some(handle));
    assert_eq!(node.change_sender, None);
}

#[test]
fn input_frame_has_the_size_of_the_field() {
    let handle = Signal { slot: 2, seen: 0 };
    let builder = MInputBuilder {
        frame: dsl_frame(),
        cursor_icon: Some(CursorIcon::Pointer),
        on_change: Some(handle),
        on_submit: None,
        has_placeholder: false,
        width: Fixed::from_int(10),
        palette: dsl_palette(0),
        focus_palette: None,
        disabled_palette: None,
        bottom_bar: None,
        stroke: Fixed::from_int(1),
        capsule: true,
        radius: Fixed::from_int(3),
        shadow: OptionEx::Absent,
        cancel: None,
    };
    let node = builder.frame();
    assert_eq!(node.frame.dimension.dimension, DimensionType::Owned(Size2::em(Fixed::from_int(10), Fixed::from_raw(2_800_000))));
    assert_eq!(node.frame.event, Some(EventFlags::of(HOVER | LEFT_DRAG)));
    assert_eq!(node.frame.hitbox, Some(Hitbox::full()));
    assert_eq!(node.box_event, EventFlags::of(HOVER | DOUBLE_CLICK | LEFT_DRAG | CLICK_OUTSIDE));
    assert_eq!(node.cursor, SetCursor { flags: EventFlags::of(HOVER | LEFT_DRAG), icon: CursorIcon::Pointer });
    assert_eq!(node.change_sender, Some(handle));
    assert_eq!(node.submit_sender, None);
}
