//! What a description of a node or widget comes to: the components to give
//! the node, worked out from the fields that were written and the defaults
//! for those that were not. Creating the nodes is left to the host.

use vstd::prelude::*;
use crate::fixed::Fixed;
use crate::vec2::Vec2;
use crate::rect::{Anchor, Hitbox, Rotation};
use crate::scaling::{FontSize, Size, Size2, SizeUnit};
use crate::dimension::{Dimension, DimensionType};
use crate::transform::Transform2D;
use crate::layout::{Container, Layout, LayoutRange};
use crate::events::flags::{EventFlags, CLICK_OUTSIDE, DOUBLE_CLICK, HOVER, LEFT_CLICK, LEFT_DRAG,
    LEFT_PRESSED};
use crate::anim::interpolate::{Color, Opacity};
use crate::dsl::util::{Aspect, OneOrTwo, ParentAnchor, Scale};
use crate::widgets::colors::{InputStateColors, Palette};
use crate::widgets::toggle::{CheckButtonState, ToggleColors, ToggleDial};
use crate::dsl::widgets::{CursorIcon, SetCursor, cursor_for, spec_cursor_for};
use crate::signals::object::Object;
use crate::signals::pool::Signal;
use crate::events::cursor::NodeId;
use crate::dsl::converters::OptionEx;
use crate::widgets::shadow::{ShadowInfo, ShadowPlan};
use crate::widgets::material::{Corners, RoundedRectangleMaterial};

verus! {

/// The description of a plain node.
#[derive(Debug, Clone, Copy)]
pub struct FrameBuilder {
    pub anchor: Anchor,
    pub parent_anchor: ParentAnchor,
    pub center: Anchor,
    pub offset: Size2,
    pub rotation: Rotation,
    pub scale: Scale,
    pub z: Fixed,
    pub dimension: DimensionType,
    pub font_size: FontSize,
    pub aspect: Aspect,
    pub event: EventFlags,
    pub hitbox: Option<Hitbox>,
    pub layout: Option<Layout>,
    pub margin: OneOrTwo<Vec2>,
    pub padding: OneOrTwo<Vec2>,
    pub children_range: LayoutRange,
    pub clipping: Option<bool>,
    pub opacity: Opacity,
}

/// The components of a plain node.
#[derive(Debug, Clone, Copy)]
pub struct FramePlan {
    pub transform: Transform2D,
    pub dimension: Dimension,
    pub opacity: Opacity,
    pub clipping: bool,
    /// The interactions of the node, if it has any.
    pub event: Option<EventFlags>,
    /// The hitbox of the node, if it needs one.
    pub hitbox: Option<Hitbox>,
    /// The container, if the node lays out its children.
    pub container: Option<Container>,
}

impl FrameBuilder {
    /// The sizing of the node: a node that lays out its children cannot copy
    /// its size from what it shows, so such a size becomes a dynamic one.
    pub open spec fn spec_sizing(self) -> DimensionType {
        if self.layout is Some && self.dimension is Copied {
            DimensionType::Dynamic
        } else {
            self.dimension
        }
    }

    /// The components of the node.
    ///
    /// The placement takes the fields as written. The proportions are kept
    /// if an aspect is given. The node clips only if told to. It gets its
    /// interactions if there are any, and then also a hitbox: the one given,
    /// or its whole rectangle. It gets a container if a layout is given.
    pub open spec fn spec_plan(self) -> FramePlan {
        FramePlan {
            transform: Transform2D {
                center: self.center,
                anchor: self.anchor,
                parent_anchor: self.parent_anchor.0,
                offset: self.offset,
                rotation: self.rotation,
                scale: self.scale.0,
                z: self.z,
            },
            dimension: Dimension {
                dimension: self.spec_sizing(),
                font_size: self.font_size,
                preserve_aspect: !(self.aspect is Free),
            },
            opacity: self.opacity,
            clipping: self.clipping == Some(true),
            event: if self.event.is_empty() {
                None
            } else {
                Some(self.event)
            },
            hitbox: if self.hitbox is Some {
                self.hitbox
            } else if !self.event.is_empty() {
                Some(Hitbox { shape: crate::rect::HitboxShape::Rect, scale: Vec2::one() })
            } else {
                None
            },
            container: match self.layout {
                Some(layout) => Some(
                    Container {
                        layout,
                        margin: self.margin.0,
                        padding: self.padding.0,
                        range: self.children_range,
                    },
                ),
                None => None,
            },
        }
    }

    /// The components of the node; see [`FrameBuilder::spec_plan`].
    pub fn plan(self) -> (r: FramePlan)
        ensures
            r == self.spec_plan(),
    {
        let sizing = match (self.layout, self.dimension) {
            (Some(_), DimensionType::Copied) => DimensionType::Dynamic,
            _ => self.dimension,
        };
        let clipping = match self.clipping {
            Some(c) => c,
            None => false,
        };
        let hitbox = match self.hitbox {
            Some(h) => Some(h),
            None => if !self.event.is_empty() {
                Some(Hitbox::full())
            } else {
                None
            },
        };
        FramePlan {
            transform: Transform2D {
                center: self.center,
                anchor: self.anchor,
                parent_anchor: self.parent_anchor.0,
                offset: self.offset,
                rotation: self.rotation,
                scale: self.scale.0,
                z: self.z,
            },
            dimension: Dimension {
                dimension: sizing,
                font_size: self.font_size,
                preserve_aspect: !matches!(self.aspect, Aspect::Free),
            },
            opacity: self.opacity,
            clipping,
            event: if self.event.is_empty() {
                None
            } else {
                Some(self.event)
            },
            hitbox,
            container: match self.layout {
                Some(layout) => Some(
                    Container {
                        layout,
                        margin: self.margin.0,
                        padding: self.padding.0,
                        range: self.children_range,
                    },
                ),
                None => None,
            },
        }
    }
}

/// Where text breaks into lines.
#[derive(Debug, Clone, Copy, PartialEq, Eq, Structural)]
pub enum BreakLineOn {
    WordBoundary,
    AnyCharacter,
    NoWrap,
}

/// Where a text breaks into lines: as told, or else at word boundaries if it
/// wraps and nowhere if it does not.
pub fn line_break(break_line_on: Option<BreakLineOn>, wrap: bool) -> (r: BreakLineOn)
    ensures
        r == match break_line_on {
            Some(b) => b,
            None => if wrap {
                BreakLineOn::WordBoundary
            } else {
                BreakLineOn::NoWrap
            },
        },
{
    match break_line_on {
        Some(b) => b,
        None => if wrap {
            BreakLineOn::WordBoundary
        } else {
            BreakLineOn::NoWrap
        },
    }
}

/// The kinds of widget that react to the pointer by themselves.
#[derive(Debug, Clone, Copy, PartialEq, Eq, Structural)]
pub enum WidgetKind {
    Button,
    CheckButton,
    RadioButton,
    InputBox,
    Toggle,
    Input,
}

impl WidgetKind {
    /// The interactions that a widget of this kind takes part in whatever
    /// its description says.
    pub open spec fn spec_own_events(self) -> EventFlags {
        match self {
            WidgetKind::InputBox => EventFlags::of(HOVER | DOUBLE_CLICK | LEFT_DRAG | CLICK_OUTSIDE),
            WidgetKind::Input => EventFlags::of(HOVER | LEFT_DRAG),
            _ => EventFlags::of(HOVER | LEFT_CLICK),
        }
    }

    /// The interactions that a widget of this kind takes part in whatever
    /// its description says.
    #[verifier::when_used_as_spec(spec_own_events)]
    pub fn own_events(self) -> (r: EventFlags)
        ensures
            r == self.spec_own_events(),
    {
        match self {
            WidgetKind::InputBox => EventFlags::of(HOVER | DOUBLE_CLICK | LEFT_DRAG | CLICK_OUTSIDE),
            WidgetKind::Input => EventFlags::of(HOVER | LEFT_DRAG),
            _ => EventFlags::of(HOVER | LEFT_CLICK),
        }
    }

    /// The interactions of a widget of this kind whose description asks for
    /// `event`: those and the kind's own.
    pub fn events(self, event: EventFlags) -> (r: EventFlags)
        ensures
            r == event.union(self.spec_own_events()),
    {
        event.union(self.own_events())
    }

    /// The frame of a widget of this kind that is described by `frame`: the
    /// frame as described, with the kind's own interactions added.
    pub open spec fn spec_frame(self, frame: FrameBuilder) -> FramePlan {
        (FrameBuilder { event: frame.event.union(self.spec_own_events()), ..frame }).spec_plan()
    }

    /// The frame of a widget of this kind that is described by `frame`. It
    /// always has interactions, and with them a hitbox: the one described,
    /// or else its whole rectangle.
    pub fn frame(self, frame: FrameBuilder) -> (r: FramePlan)
        ensures
            r == self.spec_frame(frame),
            r.event == Some(frame.event.union(self.spec_own_events())),
            r.hitbox == Some(
                match frame.hitbox {
                    Some(h) => h,
                    None => Hitbox { shape: crate::rect::HitboxShape::Rect, scale: Vec2::one() },
                },
            ),
    {
        let own = self.own_events();
        let event = frame.event.union(own);
        proof {
            let e = frame.event.bits;
            let o = own.bits;
            assert(o == 0x1001 || o == 0x81 || o == 0x12081) by {
                assert(HOVER | LEFT_CLICK == 0x1001) by (bit_vector);
                assert(HOVER | LEFT_DRAG == 0x81) by (bit_vector);
                assert(HOVER | DOUBLE_CLICK | LEFT_DRAG | CLICK_OUTSIDE == 0x12081) by (bit_vector);
            }
            assert(o != 0 ==> (e | o) != 0) by (bit_vector);
        }
        let mut described = frame;
        described.event = event;
        described.plan()
    }

    /// The focus under which the pointer changes its shape over a widget of
    /// this kind.
    pub fn cursor_flags(self) -> (r: EventFlags)
        ensures
            r == match self {
                WidgetKind::InputBox => EventFlags::of(HOVER | LEFT_DRAG),
                WidgetKind::Input => EventFlags::of(HOVER | LEFT_DRAG),
                _ => EventFlags::of(HOVER | LEFT_PRESSED),
            },
    {
        match self {
            WidgetKind::InputBox => EventFlags::of(HOVER | LEFT_DRAG),
            WidgetKind::Input => EventFlags::of(HOVER | LEFT_DRAG),
            _ => EventFlags::of(HOVER | LEFT_PRESSED),
        }
    }
}

/// The description of a toggle, as far as its looks go. Lengths are in
/// multiples of the font size.
#[derive(Debug, Clone, Copy)]
pub struct MToggleBuilder {
    /// The frame of the toggle as described; its size is set by the toggle.
    pub frame: FrameBuilder,
    /// The shape of the pointer over the toggle.
    pub cursor: Option<CursorIcon>,
    /// What the toggle sends when it is clicked while on.
    pub payload: Option<Object>,
    /// The signal to send when the toggle is clicked while on.
    pub on_checked: Option<Signal>,
    /// The signal to send the new state on.
    pub on_toggle: Option<Signal>,
    /// Whether the toggle starts out on.
    pub checked: bool,
    /// How far the dial travels; 1.25 unless given.
    pub length: Option<Fixed>,
    /// The colours while off.
    pub palette: Palette,
    /// The colours while on; those while off unless given.
    pub checked_palette: Option<Palette>,
    /// The height of the background; all of the toggle unless given.
    pub background_size: Option<Fixed>,
    /// The size of the dial; 1.4 unless given.
    pub dial_size: Option<Fixed>,
    /// The size of the dial while on; as while off unless given.
    pub checked_size: Option<Fixed>,
    /// Whether the dial shows an icon.
    pub icon: bool,
    /// Whether the dial shows another icon while on.
    pub icon_checked: bool,
    /// The width of the outline of the background.
    pub background_stroke: Fixed,
    /// The width of the outline of the dial.
    pub dial_stroke: Fixed,
    /// The shadow of the background, if it has one.
    pub shadow: OptionEx<ShadowInfo>,
    /// The shadow of the dial, if it has one.
    pub dial_shadow: OptionEx<ShadowInfo>,
}

/// The looks of a toggle.
#[derive(Debug, Clone, Copy)]
pub struct TogglePlan {
    /// The size of the toggle.
    pub dimension: Size2,
    /// The size of the background.
    pub background_size: Size2,
    /// The colours in force at the start.
    pub active: Palette,
    /// The fill of the background, on and off.
    pub background: ToggleColors,
    /// The outline of the background, on and off.
    pub background_stroke: ToggleColors,
    /// The fill of the dial, on and off.
    pub foreground: ToggleColors,
    /// The outline of the dial, on and off.
    pub foreground_stroke: ToggleColors,
    /// Place and size of the dial, on and off.
    pub dial: ToggleDial,
    /// Where the dial starts out.
    pub initial_offset: Vec2,
    /// How large the dial starts out.
    pub initial_dimension: Vec2,
    /// The icon of the dial: its colour at the start and its colours on and
    /// off.
    pub icon: Option<(Color, ToggleColors)>,
    /// The icon of the dial that shows while on.
    pub icon_checked: Option<(Color, ToggleColors)>,
    /// What the background is drawn with at the start: a capsule in the
    /// background colour in force, outlined as described.
    pub background_material: RoundedRectangleMaterial,
    /// What the dial is drawn with at the start: a capsule in the foreground
    /// colour in force, outlined as described.
    pub dial_material: RoundedRectangleMaterial,
    /// The shadow of the background as drawn, if it has one.
    pub shadow: Option<ShadowPlan>,
    /// The shadow of the dial as drawn, if it has one.
    pub dial_shadow: Option<ShadowPlan>,
    /// The depth of the background against the toggle.
    pub background_z: Fixed,
    /// The depth of the dial against the toggle.
    pub dial_z: Fixed,
    /// The size of an icon: two thirds of the dial.
    pub icon_size: Size2,
    /// The seconds that a change of state takes to show.
    pub transition: Fixed,
}

/// The capsule of the given fill with an outline of the given colour and
/// width.
pub open spec fn spec_capsule(fill: Color, stroke: Color, width: Fixed) -> RoundedRectangleMaterial {
    RoundedRectangleMaterial {
        color: fill,
        corners: Corners::splat(Fixed::zero()),
        size: Vec2::zero(),
        capsule: true,
        stroke_color: stroke,
        stroke_size: width,
    }
}

/// The shadow of a capsule as drawn, if one is asked for.
pub open spec fn spec_capsule_shadow(shadow: OptionEx<ShadowInfo>) -> Option<ShadowPlan> {
    match shadow {
        OptionEx::Given(info) => Some(info.spec_plan(None)),
        OptionEx::Absent => None,
    }
}

/// The shadow of a capsule as drawn, if one is asked for.
#[verifier::when_used_as_spec(spec_capsule_shadow)]
pub fn capsule_shadow(shadow: OptionEx<ShadowInfo>) -> (r: Option<ShadowPlan>)
    ensures
        r == spec_capsule_shadow(shadow),
{
    match shadow {
        OptionEx::Given(info) => Some(info.build_capsule()),
        OptionEx::Absent => None,
    }
}

/// What the node of a toggle carries besides its looks.
#[derive(Debug, Clone, Copy)]
pub struct ToggleFrame {
    /// The frame: interactions, hitbox, placement and size.
    pub frame: FramePlan,
    /// Whether the toggle starts out on.
    pub state: CheckButtonState,
    /// The shape of the pointer over the toggle.
    pub cursor: SetCursor,
    /// What the toggle sends when it is clicked while on.
    pub payload: Option<Object>,
    /// The handle to send clicks through.
    pub click_sender: Option<Signal>,
    /// The handle to send the new state through.
    pub change_sender: Option<Signal>,
}

/// What the node of an input field carries besides its looks.
#[derive(Debug, Clone, Copy)]
pub struct InputFrame {
    /// The frame: interactions, hitbox, placement and size.
    pub frame: FramePlan,
    /// The interactions of the box that takes the text.
    pub box_event: EventFlags,
    /// The shape of the pointer over the box.
    pub cursor: SetCursor,
    /// The handle to send changes of the text through.
    pub change_sender: Option<Signal>,
    /// The handle to send the text through when it is submitted.
    pub submit_sender: Option<Signal>,
}

/// The number `raw` millionths.
pub open spec fn micro(raw: int) -> Fixed {
    Fixed { raw: raw as i64 }
}

impl MToggleBuilder {
    /// How far the dial travels.
    pub open spec fn spec_travel(self) -> Fixed {
        match self.length {
            Some(l) => l,
            None => micro(1_250_000),
        }
    }

    /// What the node of the toggle carries besides its looks.
    ///
    /// The frame is the one described with hovering and left clicks added,
    /// and with them a hitbox. Its size is the toggle's own, whatever the
    /// description says: two high and longer than that by the travel of the
    /// dial, in multiples of the font size. The pointer becomes a hand over
    /// it unless told otherwise.
    pub open spec fn spec_frame(self) -> ToggleFrame {
        ToggleFrame {
            frame: FramePlan {
                dimension: Dimension {
                    dimension: DimensionType::Owned(
                        Size2::of(
                            SizeUnit::Em,
                            SizeUnit::Em,
                            Vec2 {
                                x: micro(2_000_000).plus(self.spec_travel()),
                                y: micro(2_000_000),
                            },
                        ),
                    ),
                    font_size: FontSize::Inherit,
                    preserve_aspect: false,
                },
                ..WidgetKind::Toggle.spec_frame(self.frame)
            },
            state: if self.checked {
                CheckButtonState::Checked
            } else {
                CheckButtonState::Unchecked
            },
            cursor: spec_cursor_for(WidgetKind::Toggle, self.cursor),
            payload: self.payload,
            click_sender: self.on_checked,
            change_sender: self.on_toggle,
        }
    }

    /// What the node of the toggle carries besides its looks; see
    /// [`MToggleBuilder::spec_frame`].
    pub fn frame(self) -> (r: ToggleFrame)
        ensures
            r == self.spec_frame(),
            r.frame.event == Some(self.frame.event.union(WidgetKind::Toggle.spec_own_events())),
            r.frame.hitbox is Some,
    {
        let travel = match self.length {
            Some(l) => l,
            None => Fixed { raw: 1_250_000 },
        };
        let two = Fixed { raw: 2_000_000 };
        let mut frame = WidgetKind::Toggle.frame(self.frame);
        frame.dimension = Dimension::owned(Size2::em(two.plus(travel), two));
        ToggleFrame {
            frame,
            state: CheckButtonState::from_bool(self.checked),
            cursor: cursor_for(WidgetKind::Toggle, self.cursor),
            payload: self.payload,
            click_sender: self.on_checked,
            change_sender: self.on_toggle,
        }
    }

    /// The looks of the toggle.
    ///
    /// The toggle is two high and longer than that by the travel of the
    /// dial. The dial sits half the travel to the left while off and half the
    /// travel to the right while on. An icon that is alone shows in both
    /// states; one that has a partner for the checked state fades out while
    /// on, and the partner fades out while off.
    pub open spec fn spec_plan(self) -> TogglePlan {
        let off = self.palette;
        let on = match self.checked_palette {
            Some(p) => p,
            None => off,
        };
        let active = if self.checked {
            on
        } else {
            off
        };
        let travel = match self.length {
            Some(l) => l,
            None => micro(1_250_000),
        };
        let dial_size = match self.dial_size {
            Some(d) => d,
            None => micro(1_400_000),
        };
        let checked_size = match self.checked_size {
            Some(d) => d,
            None => dial_size,
        };
        let reach = travel.over(micro(2_000_000));
        let dial = ToggleDial {
            inactive_offset: Vec2 { x: reach.negated(), y: Fixed::zero() },
            inactive_dimension: Vec2::splat(dial_size),
            active_offset: Vec2 { x: reach, y: Fixed::zero() },
            active_dimension: Vec2::splat(checked_size),
        };
        TogglePlan {
            dimension: Size2::of(
                SizeUnit::Em,
                SizeUnit::Em,
                Vec2 { x: micro(2_000_000).plus(travel), y: micro(2_000_000) },
            ),
            background_size: match self.background_size {
                Some(x) => Size2::of(SizeUnit::Em, SizeUnit::Em, Vec2 { x: x.plus(travel), y: x }),
                None => Size2::of(SizeUnit::Percent, SizeUnit::Percent, Vec2::one()),
            },
            active,
            background: ToggleColors { inactive: off.background, active: on.background },
            background_stroke: ToggleColors { inactive: off.stroke, active: on.stroke },
            foreground: ToggleColors { inactive: off.foreground, active: on.foreground },
            foreground_stroke: ToggleColors {
                inactive: off.foreground_stroke,
                active: on.foreground_stroke,
            },
            dial,
            initial_offset: if self.checked {
                dial.active_offset
            } else {
                dial.inactive_offset
            },
            initial_dimension: if self.checked {
                dial.active_dimension
            } else {
                dial.inactive_dimension
            },
            icon: if !self.icon {
                None
            } else if !self.icon_checked {
                Some(
                    (
                        active.on_foreground,
                        ToggleColors { inactive: off.on_foreground, active: on.on_foreground },
                    ),
                )
            } else {
                Some(
                    (
                        if self.checked {
                            Color::none()
                        } else {
                            off.on_foreground
                        },
                        ToggleColors { inactive: off.on_foreground, active: Color::none() },
                    ),
                )
            },
            icon_checked: if self.icon_checked {
                Some(
                    (
                        if !self.checked {
                            Color::none()
                        } else {
                            on.on_foreground
                        },
                        ToggleColors { inactive: Color::none(), active: on.on_foreground },
                    ),
                )
            } else {
                None
            },
            background_material: spec_capsule(
                active.background,
                active.stroke,
                self.background_stroke,
            ),
            dial_material: spec_capsule(
                active.foreground,
                active.foreground_stroke,
                self.dial_stroke,
            ),
            shadow: spec_capsule_shadow(self.shadow),
            dial_shadow: spec_capsule_shadow(self.dial_shadow),
            background_z: micro(10_000),
            dial_z: micro(20_000),
            icon_size: Size2::of(
                SizeUnit::Percent,
                SizeUnit::Percent,
                Vec2 { x: micro(666_000), y: micro(666_000) },
            ),
            transition: micro(250_000),
        }
    }

    /// The looks of the toggle; see [`MToggleBuilder::spec_plan`].
    pub fn plan(self) -> (r: TogglePlan)
        ensures
            r == self.spec_plan(),
    {
        let off = self.palette;
        let on = match self.checked_palette {
            Some(p) => p,
            None => off,
        };
        let active = if self.checked {
            on
        } else {
            off
        };
        let two = Fixed { raw: 2_000_000 };
        let travel = match self.length {
            Some(l) => l,
            None => Fixed { raw: 1_250_000 },
        };
        let dial_size = match self.dial_size {
            Some(d) => d,
            None => Fixed { raw: 1_400_000 },
        };
        let checked_size = match self.checked_size {
            Some(d) => d,
            None => dial_size,
        };
        let reach = travel.over(two);
        let dial = ToggleDial {
            inactive_offset: Vec2 { x: reach.negated(), y: Fixed::zero() },
            inactive_dimension: Vec2::splat(dial_size),
            active_offset: Vec2 { x: reach, y: Fixed::zero() },
            active_dimension: Vec2::splat(checked_size),
        };
        let icon = if !self.icon {
            None
        } else if !self.icon_checked {
            Some(
                (
                    active.on_foreground,
                    ToggleColors { inactive: off.on_foreground, active: on.on_foreground },
                ),
            )
        } else {
            Some(
                (
                    if self.checked {
                        Color::none()
                    } else {
                        off.on_foreground
                    },
                    ToggleColors { inactive: off.on_foreground, active: Color::none() },
                ),
            )
        };
        let icon_checked = if self.icon_checked {
            Some(
                (
                    if !self.checked {
                        Color::none()
                    } else {
                        on.on_foreground
                    },
                    ToggleColors { inactive: Color::none(), active: on.on_foreground },
                ),
            )
        } else {
            None
        };
        TogglePlan {
            dimension: Size2::em(two.plus(travel), two),
            background_size: match self.background_size {
                Some(x) => Size2::em(x.plus(travel), x),
                None => Size2::full(),
            },
            active,
            background: ToggleColors { inactive: off.background, active: on.background },
            background_stroke: ToggleColors { inactive: off.stroke, active: on.stroke },
            foreground: ToggleColors { inactive: off.foreground, active: on.foreground },
            foreground_stroke: ToggleColors {
                inactive: off.foreground_stroke,
                active: on.foreground_stroke,
            },
            dial,
            initial_offset: if self.checked {
                dial.active_offset
            } else {
                dial.inactive_offset
            },
            initial_dimension: if self.checked {
                dial.active_dimension
            } else {
                dial.inactive_dimension
            },
            icon,
            icon_checked,
            background_material: RoundedRectangleMaterial::capsule(active.background).with_stroke(
                active.stroke,
                self.background_stroke,
            ),
            dial_material: RoundedRectangleMaterial::capsule(active.foreground).with_stroke(
                active.foreground_stroke,
                self.dial_stroke,
            ),
            shadow: capsule_shadow(self.shadow),
            dial_shadow: capsule_shadow(self.dial_shadow),
            background_z: Fixed { raw: 10_000 },
            dial_z: Fixed { raw: 20_000 },
            icon_size: Size2 {
                x: SizeUnit::Percent,
                y: SizeUnit::Percent,
                raw: Vec2 { x: Fixed { raw: 666_000 }, y: Fixed { raw: 666_000 } },
            },
            transition: Fixed { raw: 250_000 },
        }
    }
}

/// The description of an input field, as far as its looks go.
#[derive(Debug, Clone, Copy)]
pub struct MInputBuilder {
    /// The frame of the field as described; its size is set by the field.
    pub frame: FrameBuilder,
    /// The shape of the pointer over the field.
    pub cursor_icon: Option<CursorIcon>,
    /// The signal to send changes of the text on.
    pub on_change: Option<Signal>,
    /// The signal to send the text on when it is submitted.
    pub on_submit: Option<Signal>,
    /// Whether a placeholder is given.
    pub has_placeholder: bool,
    /// The width of the field in multiples of the font size.
    pub width: Fixed,
    /// The colours.
    pub palette: Palette,
    /// The colours under focus; the plain ones unless given.
    pub focus_palette: Option<Palette>,
    /// The colours while disabled; the plain ones unless given.
    pub disabled_palette: Option<Palette>,
    /// The height of a bar along the bottom, if there is one.
    pub bottom_bar: Option<Fixed>,
    /// The width of the outline.
    pub stroke: Fixed,
    /// Whether the ends of the field are round.
    pub capsule: bool,
    /// The radius of the corners of a field whose ends are not round.
    pub radius: Fixed,
    /// The shadow of the field, if it has one.
    pub shadow: OptionEx<ShadowInfo>,
    /// The node that clears the field when clicked, if there is one.
    pub cancel: Option<NodeId>,
}

/// The looks of an input field.
#[derive(Debug, Clone, Copy)]
pub struct InputPlan {
    /// The size of the field.
    pub dimension: Size2,
    /// The width left for the text.
    pub text_width: Size,
    /// Where the text starts.
    pub text_offset: Size2,
    /// The fill by state.
    pub colors: InputStateColors,
    /// The colour of the text.
    pub text_color: Color,
    /// The colours of the placeholder, idle and active, if there is one.
    pub placeholder: Option<(Color, Color)>,
    /// The size of the bar along the bottom, if there is one.
    pub bottom_bar: Option<Size2>,
    /// What the field is drawn with at the start: a capsule or a rectangle
    /// with corners of the radius described, in the background colour,
    /// outlined as described.
    pub material: RoundedRectangleMaterial,
    /// The shadow of the field as drawn, if it has one: that of a capsule or
    /// of a rectangle with the corners described.
    pub shadow: Option<ShadowPlan>,
    /// The node that clears the field when clicked, if there is one; it shows
    /// only while the field has text.
    pub cancel: Option<NodeId>,
    /// The depth of the box and of the text, each against what holds it.
    pub z: Fixed,
    /// The size of the bar that shows where the text goes in.
    pub cursor_bar: Size2,
    /// The depth of that bar against the box.
    pub cursor_bar_z: Fixed,
    /// The size of the area that shows what is selected, before anything is.
    pub cursor_area: Size2,
    /// The depth of that area against the box.
    pub cursor_area_z: Fixed,
    /// Where the placeholder starts.
    pub placeholder_offset: Size2,
    /// The seconds that a change of state takes to show.
    pub transition: Fixed,
}

impl MInputBuilder {
    /// What the node of the field carries besides its looks.
    ///
    /// The frame is the one described with hovering and left drags added,
    /// and with them a hitbox. Its size is the field's own, whatever the
    /// description says: as wide as told and 2.8 high, in multiples of the
    /// font size. The box inside takes the interactions of an input box, and
    /// the pointer becomes a text cursor over it unless told otherwise.
    pub open spec fn spec_frame(self) -> InputFrame {
        InputFrame {
            frame: WidgetKind::Input.spec_frame(
                FrameBuilder {
                    dimension: DimensionType::Owned(
                        Size2::of(
                            SizeUnit::Em,
                            SizeUnit::Em,
                            Vec2 { x: self.width, y: micro(2_800_000) },
                        ),
                    ),
                    ..self.frame
                },
            ),
            box_event: WidgetKind::InputBox.spec_own_events(),
            cursor: spec_cursor_for(WidgetKind::InputBox, self.cursor_icon),
            change_sender: self.on_change,
            submit_sender: self.on_submit,
        }
    }

    /// What the node of the field carries besides its looks; see
    /// [`MInputBuilder::spec_frame`].
    pub fn frame(self) -> (r: InputFrame)
        ensures
            r == self.spec_frame(),
            r.frame.event == Some(self.frame.event.union(WidgetKind::Input.spec_own_events())),
            r.frame.hitbox is Some,
            r.frame.dimension.dimension == DimensionType::Owned(
                Size2::of(SizeUnit::Em, SizeUnit::Em, Vec2 { x: self.width, y: micro(2_800_000) }),
            ),
    {
        let mut described = self.frame;
        described.dimension =
        DimensionType::Owned(Size2::em(self.width, Fixed { raw: 2_800_000 }));
        InputFrame {
            frame: WidgetKind::Input.frame(described),
            box_event: WidgetKind::InputBox.own_events(),
            cursor: cursor_for(WidgetKind::InputBox, self.cursor_icon),
            change_sender: self.on_change,
            submit_sender: self.on_submit,
        }
    }

    /// The looks of the field: it is 2.8 high, the text starts 0.8 in and
    /// has 1.6 less than the width of the field, and it sits 0.4 lower where
    /// a placeholder takes the room above.
    pub open spec fn spec_plan(self) -> InputPlan {
        let style = self.palette;
        let focus = match self.focus_palette {
            Some(p) => p,
            None => style,
        };
        let disabled = match self.disabled_palette {
            Some(p) => p,
            None => style,
        };
        InputPlan {
            dimension: Size2::of(
                SizeUnit::Em,
                SizeUnit::Em,
                Vec2 { x: self.width, y: micro(2_800_000) },
            ),
            text_width: Size { unit: SizeUnit::MarginEm, value: micro(-1_600_000) },
            text_offset: Size2::of(
                SizeUnit::Em,
                SizeUnit::Em,
                Vec2 {
                    x: micro(800_000),
                    y: if self.has_placeholder {
                        micro(-400_000)
                    } else {
                        Fixed::zero()
                    },
                },
            ),
            colors: InputStateColors {
                idle: style.background,
                focused: focus.background,
                disabled: disabled.background,
            },
            text_color: style.foreground,
            placeholder: if self.has_placeholder {
                Some((style.foreground, focus.foreground))
            } else {
                None
            },
            bottom_bar: match self.bottom_bar {
                Some(h) => Some(
                    Size2::of(SizeUnit::Percent, SizeUnit::Em, Vec2 { x: Fixed::one(), y: h }),
                ),
                None => None,
            },
            material: RoundedRectangleMaterial {
                color: style.background,
                corners: if self.capsule {
                    Corners::splat(Fixed::zero())
                } else {
                    Corners::splat(self.radius)
                },
                size: Vec2::zero(),
                capsule: self.capsule,
                stroke_color: style.stroke,
                stroke_size: self.stroke,
            },
            shadow: match self.shadow {
                OptionEx::Given(info) => Some(
                    info.spec_plan(
                        if self.capsule {
                            None
                        } else {
                            Some(self.radius)
                        },
                    ),
                ),
                OptionEx::Absent => None,
            },
            cancel: self.cancel,
            z: micro(10_000),
            cursor_bar: Size2::of(
                SizeUnit::Em,
                SizeUnit::Em,
                Vec2 { x: micro(150_000), y: micro(1_200_000) },
            ),
            cursor_bar_z: micro(5_000),
            cursor_area: Size2::of(
                SizeUnit::Pixels,
                SizeUnit::Em,
                Vec2 { x: Fixed::zero(), y: micro(1_200_000) },
            ),
            cursor_area_z: micro(-5_000),
            placeholder_offset: Size2::of(
                SizeUnit::Em,
                SizeUnit::Em,
                Vec2 { x: micro(800_000), y: Fixed::zero() },
            ),
            transition: micro(150_000),
        }
    }

    /// The looks of the field; see [`MInputBuilder::spec_plan`].
    pub fn plan(self) -> (r: InputPlan)
        ensures
            r == self.spec_plan(),
    {
        let style = self.palette;
        let focus = match self.focus_palette {
            Some(p) => p,
            None => style,
        };
        let disabled = match self.disabled_palette {
            Some(p) => p,
            None => style,
        };
        InputPlan {
            dimension: Size2::em(self.width, Fixed { raw: 2_800_000 }),
            text_width: Size { unit: SizeUnit::MarginEm, value: Fixed { raw: -1_600_000 } },
            text_offset: Size2::em(
                Fixed { raw: 800_000 },
                if self.has_placeholder {
                    Fixed { raw: -400_000 }
                } else {
                    Fixed::zero()
                },
            ),
            colors: InputStateColors {
                idle: style.background,
                focused: focus.background,
                disabled: disabled.background,
            },
            text_color: style.foreground,
            placeholder: if self.has_placeholder {
                Some((style.foreground, focus.foreground))
            } else {
                None
            },
            bottom_bar: match self.bottom_bar {
                Some(h) => Some(
                    Size2 {
                        x: SizeUnit::Percent,
                        y: SizeUnit::Em,
                        raw: Vec2 { x: Fixed::one(), y: h },
                    },
                ),
                None => None,
            },
            material: if self.capsule {
                RoundedRectangleMaterial::capsule(style.background).with_stroke(
                    style.stroke,
                    self.stroke,
                )
            } else {
                RoundedRectangleMaterial::new(style.background, self.radius).with_stroke(
                    style.stroke,
                    self.stroke,
                )
            },
            shadow: match self.shadow {
                OptionEx::Given(info) => Some(
                    if self.capsule {
                        info.build_capsule()
                    } else {
                        info.build_rect(self.radius)
                    },
                ),
                OptionEx::Absent => None,
            },
            cancel: self.cancel,
            z: Fixed { raw: 10_000 },
            cursor_bar: Size2::em(Fixed { raw: 150_000 }, Fixed { raw: 1_200_000 }),
            cursor_bar_z: Fixed { raw: 5_000 },
            cursor_area: Size2 {
                x: SizeUnit::Pixels,
                y: SizeUnit::Em,
                raw: Vec2 { x: Fixed::zero(), y: Fixed { raw: 1_200_000 } },
            },
            cursor_area_z: Fixed { raw: -5_000 },
            placeholder_offset: Size2::em(Fixed { raw: 800_000 }, Fixed::zero()),
            transition: Fixed { raw: 150_000 },
        }
    }
}

} // verus!
