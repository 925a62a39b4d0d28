//! Colours by state.

use vstd::prelude::*;
use std::ops::Deref;
use crate::fixed::Fixed;
use crate::anim::interpolate::{Color, Interpolate, Interpolation, Opacity};
use crate::events::flags::{EventFlags, HOVER, LEFT_DRAG, LEFT_PRESSED};

verus! {

impl Color {
    /// The colour of the given parts.
    pub fn rgba(red: Fixed, green: Fixed, blue: Fixed, alpha: Fixed) -> (r: Color)
        ensures
            r == (Color { red, green, blue, alpha }),
    {
        Color { red, green, blue, alpha }
    }

    /// No colour at all: black and fully transparent.
    pub open spec fn spec_none() -> Color {
        Color { red: Fixed::zero(), green: Fixed::zero(), blue: Fixed::zero(), alpha: Fixed::zero() }
    }

    /// No colour at all: black and fully transparent.
    #[verifier::when_used_as_spec(spec_none)]
    pub fn none() -> (r: Color)
        ensures
            r == Color::spec_none(),
    {
        Color { red: Fixed::zero(), green: Fixed::zero(), blue: Fixed::zero(), alpha: Fixed::zero() }
    }

    /// Opaque black.
    pub open spec fn spec_black() -> Color {
        Color { red: Fixed::zero(), green: Fixed::zero(), blue: Fixed::zero(), alpha: Fixed::one() }
    }

    /// Opaque black.
    #[verifier::when_used_as_spec(spec_black)]
    pub fn black() -> (r: Color)
        ensures
            r == Color::spec_black(),
    {
        Color { red: Fixed::zero(), green: Fixed::zero(), blue: Fixed::zero(), alpha: Fixed::one() }
    }

    /// The same colour with the opacity `alpha`.
    pub open spec fn spec_with_a(self, alpha: Fixed) -> Color {
        Color { alpha, ..self }
    }

    /// The same colour with the opacity `alpha`.
    #[verifier::when_used_as_spec(spec_with_a)]
    pub fn with_a(self, alpha: Fixed) -> (r: Color)
        ensures
            r == self.spec_with_a(alpha),
    {
        Color { alpha, ..self }
    }
}

/// The colour of the outline of a node.
#[derive(Clone, Copy, Debug, PartialEq, Eq, Structural)]
pub struct StrokeColoring {
    /// The colour.
    pub color: Color,
}

impl StrokeColoring {
    /// The outline of the colour `color`.
    pub fn new(color: Color) -> (r: StrokeColoring)
        ensures
            r.color == color,
    {
        StrokeColoring { color }
    }
}

impl Interpolation for StrokeColoring {
    type FrontEnd = Color;

    open spec fn spec_lerp(from: Color, to: Color, fac: Fixed) -> Color {
        <Color as Interpolation>::spec_lerp(from, to, fac)
    }

    proof fn lerp_at_zero(from: Color, to: Color) {
        <Color as Interpolation>::lerp_at_zero(from, to);
    }

    fn lerp(from: Color, to: Color, fac: Fixed) -> (r: Color) {
        <Color as Interpolation>::lerp(from, to, fac)
    }

    fn same(a: Color, b: Color) -> (r: bool) {
        a == b
    }
}

impl crate::anim::assoc::InterpolateAssociation for (StrokeColoring, StrokeColoring) {
    type Component = StrokeColoring;

    type Interpolation = StrokeColoring;

    open spec fn readable(component: StrokeColoring) -> bool {
        true
    }

    open spec fn spec_get(component: StrokeColoring) -> Color {
        component.color
    }

    open spec fn spec_set(component: StrokeColoring, value: Color) -> StrokeColoring {
        StrokeColoring { color: value }
    }

    proof fn set_then_get(component: StrokeColoring, value: Color) {
    }

    fn can_get(component: &StrokeColoring) -> (r: bool) {
        true
    }

    fn set(component: &mut StrokeColoring, value: Color) {
        component.color = value;
    }

    fn get(component: &StrokeColoring) -> (r: Color) {
        component.color
    }
}

/// Marks a set of colours as the colours of the outline.
#[derive(Debug, Clone, Copy)]
pub struct StrokeColors<T>(pub T);

impl<T> Deref for StrokeColors<T> {
    type Target = T;

    fn deref(&self) -> (r: &T)
        ensures
            *r == self.0,
    {
        &self.0
    }
}

impl<T: Default> Default for StrokeColors<T> {
    fn default() -> (r: StrokeColors<T>) {
        StrokeColors(T::default())
    }
}

/// The colours of a widget.
#[derive(Debug, Clone, Copy, PartialEq, Eq, Structural)]
pub struct WidgetPalette {
    pub background: Color,
    pub foreground: Color,
    pub stroke: Color,
}

impl Default for WidgetPalette {
    fn default() -> (r: WidgetPalette)
        ensures
            r == (WidgetPalette {
                background: Color::none(),
                foreground: Color::none(),
                stroke: Color::none(),
            }),
    {
        WidgetPalette { background: Color::none(), foreground: Color::none(), stroke: Color::none() }
    }
}

/// The colours of a widget with a part that lies on top.
#[derive(Debug, Clone, Copy, PartialEq, Eq, Structural)]
pub struct Palette {
    pub background: Color,
    pub foreground: Color,
    pub stroke: Color,
    pub foreground_stroke: Color,
    pub on_foreground: Color,
}

/// The colours of a widget by what the pointer does to it.
#[derive(Debug, Clone, Copy, PartialEq, Eq, Structural)]
pub struct CursorStateColors {
    pub idle: Color,
    pub hover: Color,
    pub pressed: Color,
    pub disabled: Color,
}

impl Default for CursorStateColors {
    fn default() -> (r: CursorStateColors)
        ensures
            r == (CursorStateColors {
                idle: Color::none(),
                hover: Color::none(),
                pressed: Color::none(),
                disabled: Color::none(),
            }),
    {
        CursorStateColors {
            idle: Color::none(),
            hover: Color::none(),
            pressed: Color::none(),
            disabled: Color::none(),
        }
    }
}

impl CursorStateColors {
    /// The fill colour for a widget that is disabled or not and has the focus
    /// `focus`: the disabled colour first; then the hover colour for a focus
    /// that is hovering and nothing else; then the pressed colour for a focus
    /// that includes being pressed or dragged with the left button; the idle
    /// colour otherwise.
    pub open spec fn spec_fill(self, disabled: bool, focus: Option<EventFlags>) -> Color {
        if disabled {
            self.disabled
        } else if focus is Some && focus->0.is(EventFlags::of(HOVER)) {
            self.hover
        } else if focus is Some && focus->0.intersects(EventFlags::of(LEFT_PRESSED | LEFT_DRAG)) {
            self.pressed
        } else {
            self.idle
        }
    }

    /// The fill colour for a widget; see [`CursorStateColors::spec_fill`].
    #[verifier::when_used_as_spec(spec_fill)]
    pub fn fill(self, disabled: bool, focus: Option<EventFlags>) -> (r: Color)
        ensures
            r == self.spec_fill(disabled, focus),
    {
        if disabled {
            return self.disabled;
        }
        match focus {
            Some(f) => {
                if f.is(EventFlags::of(HOVER)) {
                    self.hover
                } else if f.intersects(EventFlags::of(LEFT_PRESSED | LEFT_DRAG)) {
                    self.pressed
                } else {
                    self.idle
                }
            },
            None => self.idle,
        }
    }

    /// The outline colour for a widget that is disabled or not and has the
    /// focus `focus`: as the fill colour, but pressed only for a focus that
    /// is being pressed with the left button and nothing else.
    pub open spec fn spec_outline(self, disabled: bool, focus: Option<EventFlags>) -> Color {
        if disabled {
            self.disabled
        } else if focus is Some && focus->0.is(EventFlags::of(HOVER)) {
            self.hover
        } else if focus is Some && focus->0.is(EventFlags::of(LEFT_PRESSED)) {
            self.pressed
        } else {
            self.idle
        }
    }

    /// The outline colour for a widget; see
    /// [`CursorStateColors::spec_outline`].
    #[verifier::when_used_as_spec(spec_outline)]
    pub fn outline(self, disabled: bool, focus: Option<EventFlags>) -> (r: Color)
        ensures
            r == self.spec_outline(disabled, focus),
    {
        if disabled {
            return self.disabled;
        }
        match focus {
            Some(f) => {
                if f.is(EventFlags::of(HOVER)) {
                    self.hover
                } else if f.is(EventFlags::of(LEFT_PRESSED)) {
                    self.pressed
                } else {
                    self.idle
                }
            },
            None => self.idle,
        }
    }
}

/// Sends the fill colour of a widget on its way to the colour that its state
/// asks for.
pub fn cursor_color_change(
    colors: &CursorStateColors,
    opacity: &Opacity,
    focus: Option<EventFlags>,
    color: &mut Interpolate<Color>,
)
    ensures
        final(color)@ == old(color)@.retargeted(colors.spec_fill(opacity.disabled, focus)),
        old(color)@.wf() ==> final(color)@.wf(),
{
    color.interpolate_to(colors.fill(opacity.is_disabled(), focus));
}

/// Sends the outline colour of a widget on its way to the colour that its
/// state asks for.
pub fn cursor_stroke_change(
    colors: &StrokeColors<CursorStateColors>,
    opacity: &Opacity,
    focus: Option<EventFlags>,
    color: &mut Interpolate<StrokeColoring>,
)
    ensures
        final(color)@ == old(color)@.retargeted(colors.0.spec_outline(opacity.disabled, focus)),
        old(color)@.wf() ==> final(color)@.wf(),
{
    color.interpolate_to(colors.0.outline(opacity.is_disabled(), focus));
}

/// The colours of an input field by its state.
#[derive(Debug, Clone, Copy, PartialEq, Eq, Structural)]
pub struct InputStateColors {
    pub idle: Color,
    pub focused: Color,
    pub disabled: Color,
}

} // verus!
