//! What the descriptions of the interactive widgets come to.
//!
//! A description that lacks a field it cannot do without is refused with the
//! name of the field; nothing is made up in its place.

use vstd::prelude::*;
use crate::events::cursor::NodeId;
use crate::events::flags::EventFlags;
use crate::scaling::{Size, SizeUnit};
use crate::fixed::Fixed;
use crate::vec2::Vec2;
use crate::anim::interpolate::Color;
use crate::signals::object::Object;
use crate::signals::pool::Signal;
use crate::dsl::builders::{BreakLineOn, WidgetKind, line_break};
use crate::widgets::toggle::CheckButtonState;

verus! {

/// The shape of the pointer.
#[derive(Debug, Clone, Copy, PartialEq, Eq, Structural)]
pub enum CursorIcon {
    Default,
    Pointer,
    Hand,
    Text,
}

/// Changes the shape of the pointer while the node has one of the given
/// kinds of focus.
#[derive(Debug, Clone, Copy, PartialEq, Eq, Structural)]
pub struct SetCursor {
    /// The kinds of focus.
    pub flags: EventFlags,
    /// The shape.
    pub icon: CursorIcon,
}

/// A field that a description cannot do without.
#[derive(Debug, Clone, Copy, PartialEq, Eq, Structural)]
pub enum RequiredField {
    Color,
    CursorBar,
    CursorArea,
    Context,
    Value,
}

/// Why a description was refused.
#[derive(Debug, Clone, Copy, PartialEq, Eq, Structural)]
pub enum ConfigError {
    /// The field is required and was not given.
    Missing(RequiredField),
}

impl ConfigError {
    /// The message for the user.
    pub fn message(&self) -> (r: String)
        ensures
            r@ == match self {
                ConfigError::Missing(RequiredField::Color) => "color is required."@,
                ConfigError::Missing(RequiredField::CursorBar) => "cursor_bar is required."@,
                ConfigError::Missing(RequiredField::CursorArea) => "cursor_area is required."@,
                ConfigError::Missing(RequiredField::Context) => "Expected RadioButton context."@,
                ConfigError::Missing(RequiredField::Value) => "Expected RadioButton value."@,
            },
    {
        match self {
            ConfigError::Missing(RequiredField::Color) => "color is required.".to_string(),
            ConfigError::Missing(RequiredField::CursorBar) => "cursor_bar is required.".to_string(),
            ConfigError::Missing(RequiredField::CursorArea) => "cursor_area is required.".to_string(),
            ConfigError::Missing(RequiredField::Context) => "Expected RadioButton context.".to_string(),
            ConfigError::Missing(RequiredField::Value) => "Expected RadioButton value.".to_string(),
        }
    }
}

/// The shape of the pointer over a widget: the one given, or the default of
/// the kind of widget.
pub open spec fn spec_cursor_for(kind: WidgetKind, cursor: Option<CursorIcon>) -> SetCursor {
    SetCursor {
        flags: match kind {
            WidgetKind::InputBox => EventFlags::of(
                crate::events::flags::HOVER | crate::events::flags::LEFT_DRAG,
            ),
            WidgetKind::Input => EventFlags::of(
                crate::events::flags::HOVER | crate::events::flags::LEFT_DRAG,
            ),
            _ => EventFlags::of(crate::events::flags::HOVER | crate::events::flags::LEFT_PRESSED),
        },
        icon: match cursor {
            Some(icon) => icon,
            None => match kind {
                WidgetKind::InputBox => CursorIcon::Text,
                WidgetKind::Input => CursorIcon::Text,
                WidgetKind::Toggle => CursorIcon::Hand,
                _ => CursorIcon::Pointer,
            },
        },
    }
}

/// The shape of the pointer over a widget; see [`spec_cursor_for`].
#[verifier::when_used_as_spec(spec_cursor_for)]
pub fn cursor_for(kind: WidgetKind, cursor: Option<CursorIcon>) -> (r: SetCursor)
    ensures
        r == spec_cursor_for(kind, cursor),
{
    SetCursor {
        flags: kind.cursor_flags(),
        icon: match cursor {
            Some(icon) => icon,
            None => match kind {
                WidgetKind::InputBox => CursorIcon::Text,
                WidgetKind::Input => CursorIcon::Text,
                WidgetKind::Toggle => CursorIcon::Hand,
                _ => CursorIcon::Pointer,
            },
        },
    }
}

/// The description of a button.
#[derive(Debug, Clone, Copy)]
pub struct ButtonBuilder {
    /// The interactions asked for besides the button's own.
    pub event: EventFlags,
    /// The shape of the pointer over the button.
    pub cursor: Option<CursorIcon>,
    /// The signal to send on a click.
    pub on_click: Option<Signal>,
    /// What the button sends.
    pub payload: Option<Object>,
}

/// The components of a button.
#[derive(Debug, Clone, Copy)]
pub struct ButtonPlan {
    pub event: EventFlags,
    pub cursor: SetCursor,
    pub payload: Option<Object>,
    /// The handle to send clicks through.
    pub click_sender: Option<Signal>,
}

impl ButtonBuilder {
    /// The components of the button: it hovers and takes left clicks
    /// whatever else is asked for.
    pub fn plan(self) -> (r: ButtonPlan)
        ensures
            r.event == self.event.union(WidgetKind::Button.spec_own_events()),
            r.cursor == spec_cursor_for(WidgetKind::Button, self.cursor),
            r.payload == self.payload,
            r.click_sender == self.on_click,
    {
        ButtonPlan {
            event: WidgetKind::Button.events(self.event),
            cursor: cursor_for(WidgetKind::Button, self.cursor),
            payload: self.payload,
            click_sender: self.on_click,
        }
    }
}

/// The description of a check button.
#[derive(Debug, Clone, Copy)]
pub struct CheckButtonBuilder {
    pub event: EventFlags,
    pub cursor: Option<CursorIcon>,
    pub payload: Option<Object>,
    /// The signal to send when the button is clicked while checked.
    pub on_checked: Option<Signal>,
    /// The signal to send the new state on.
    pub on_change: Option<Signal>,
    /// Whether the button starts out checked.
    pub checked: bool,
}

/// The components of a check button.
#[derive(Debug, Clone, Copy)]
pub struct CheckButtonPlan {
    pub event: EventFlags,
    pub cursor: SetCursor,
    pub state: CheckButtonState,
    pub payload: Option<Object>,
    pub change_sender: Option<Signal>,
    pub click_sender: Option<Signal>,
}

impl CheckButtonBuilder {
    /// The components of the check button.
    pub fn plan(self) -> (r: CheckButtonPlan)
        ensures
            r.event == self.event.union(WidgetKind::CheckButton.spec_own_events()),
            r.cursor == spec_cursor_for(WidgetKind::CheckButton, self.cursor),
            r.state == (if self.checked {
                CheckButtonState::Checked
            } else {
                CheckButtonState::Unchecked
            }),
            r.payload == self.payload,
            r.change_sender == self.on_change,
            r.click_sender == self.on_checked,
    {
        CheckButtonPlan {
            event: WidgetKind::CheckButton.events(self.event),
            cursor: cursor_for(WidgetKind::CheckButton, self.cursor),
            state: CheckButtonState::from_bool(self.checked),
            payload: self.payload,
            change_sender: self.on_change,
            click_sender: self.on_checked,
        }
    }
}

/// The description of a radio button.
#[derive(Debug, Clone, Copy)]
pub struct RadioButtonBuilder {
    pub event: EventFlags,
    pub cursor: Option<CursorIcon>,
    /// The group the button belongs to.
    pub context: Option<NodeId>,
    /// Whether a click on the chosen button takes the choice back.
    pub cancellable: bool,
    /// The value the button stands for.
    pub value: Option<Object>,
    pub on_click: Option<Signal>,
}

/// The components of a radio button.
#[derive(Debug, Clone, Copy)]
pub struct RadioButtonPlan {
    pub event: EventFlags,
    pub cursor: SetCursor,
    pub context: NodeId,
    pub value: Object,
    pub cancellable: bool,
    pub click_sender: Option<Signal>,
}

impl RadioButtonBuilder {
    /// The components of the radio button. The group is required, and then
    /// the value; the first that is missing is named.
    pub fn plan(self) -> (r: Result<RadioButtonPlan, ConfigError>)
        ensures
            self.context is None ==> r == Err::<RadioButtonPlan, ConfigError>(
                ConfigError::Missing(RequiredField::Context),
            ),
            self.context is Some && self.value is None ==> r == Err::<RadioButtonPlan, ConfigError>(
                ConfigError::Missing(RequiredField::Value),
            ),
            self.context is Some && self.value is Some ==> r == Ok::<RadioButtonPlan, ConfigError>(
                RadioButtonPlan {
                    event: self.event.union(WidgetKind::RadioButton.spec_own_events()),
                    cursor: spec_cursor_for(WidgetKind::RadioButton, self.cursor),
                    context: self.context->0,
                    value: self.value->0,
                    cancellable: self.cancellable,
                    click_sender: self.on_click,
                },
            ),
    {
        let context = match self.context {
            Some(c) => c,
            None => {
                return Err(ConfigError::Missing(RequiredField::Context));
            },
        };
        let value = match self.value {
            Some(v) => v,
            None => {
                return Err(ConfigError::Missing(RequiredField::Value));
            },
        };
        Ok(
            RadioButtonPlan {
                event: WidgetKind::RadioButton.events(self.event),
                cursor: cursor_for(WidgetKind::RadioButton, self.cursor),
                context,
                value,
                cancellable: self.cancellable,
                click_sender: self.on_click,
            },
        )
    }
}

/// The description of an input box.
#[derive(Debug, Clone, Copy)]
pub struct InputBoxBuilder {
    pub event: EventFlags,
    /// The colour of the text.
    pub color: Option<Color>,
    /// The width of the text; all of the box unless given.
    pub width: Option<Size>,
    /// The node that shows the text, if one was made already.
    pub text_area: Option<NodeId>,
    /// The node that shows where the text goes in.
    pub cursor_bar: Option<NodeId>,
    /// The node that shows what is selected.
    pub cursor_area: Option<NodeId>,
    pub on_change: Option<Signal>,
    pub on_submit: Option<Signal>,
    pub cursor_icon: Option<CursorIcon>,
}

/// The components of an input box.
#[derive(Debug, Clone, Copy)]
pub struct InputBoxPlan {
    pub event: EventFlags,
    pub cursor: SetCursor,
    pub width: Size,
    /// The node that shows the text; one is to be made if there is none.
    pub text_area: Option<NodeId>,
    pub color: Color,
    pub cursor_bar: NodeId,
    pub cursor_area: NodeId,
    pub change_sender: Option<Signal>,
    pub submit_sender: Option<Signal>,
}

impl InputBoxBuilder {
    /// The first required field that is missing: the colour, then the bar,
    /// then the area.
    pub open spec fn missing(self) -> Option<RequiredField> {
        if self.color is None {
            Some(RequiredField::Color)
        } else if self.cursor_bar is None {
            Some(RequiredField::CursorBar)
        } else if self.cursor_area is None {
            Some(RequiredField::CursorArea)
        } else {
            None
        }
    }

    /// The components of the input box, or the first required field that is
    /// missing.
    pub fn plan(self) -> (r: Result<InputBoxPlan, ConfigError>)
        ensures
            self.missing() matches Some(field) ==> r == Err::<InputBoxPlan, ConfigError>(
                ConfigError::Missing(field),
            ),
            self.missing() is None ==> r == Ok::<InputBoxPlan, ConfigError>(
                InputBoxPlan {
                    event: self.event.union(WidgetKind::InputBox.spec_own_events()),
                    cursor: spec_cursor_for(WidgetKind::InputBox, self.cursor_icon),
                    width: match self.width {
                        Some(w) => w,
                        None => Size { unit: SizeUnit::Percent, value: Fixed::one() },
                    },
                    text_area: self.text_area,
                    color: self.color->0,
                    cursor_bar: self.cursor_bar->0,
                    cursor_area: self.cursor_area->0,
                    change_sender: self.on_change,
                    submit_sender: self.on_submit,
                },
            ),
    {
        let color = match self.color {
            Some(c) => c,
            None => {
                return Err(ConfigError::Missing(RequiredField::Color));
            },
        };
        let cursor_bar = match self.cursor_bar {
            Some(n) => n,
            None => {
                return Err(ConfigError::Missing(RequiredField::CursorBar));
            },
        };
        let cursor_area = match self.cursor_area {
            Some(n) => n,
            None => {
                return Err(ConfigError::Missing(RequiredField::CursorArea));
            },
        };
        Ok(
            InputBoxPlan {
                event: WidgetKind::InputBox.events(self.event),
                cursor: cursor_for(WidgetKind::InputBox, self.cursor_icon),
                width: match self.width {
                    Some(w) => w,
                    None => Size { unit: SizeUnit::Percent, value: Fixed::one() },
                },
                text_area: self.text_area,
                color,
                cursor_bar,
                cursor_area,
                change_sender: self.on_change,
                submit_sender: self.on_submit,
            },
        )
    }
}

/// The description of a text, as far as its layout goes.
#[derive(Debug, Clone, Copy)]
pub struct TextBuilder {
    /// The colour; white unless given.
    pub color: Option<Color>,
    /// The bounds to lay the text out in; none unless given.
    pub bounds: Option<Vec2>,
    /// Whether the text wraps.
    pub wrap: bool,
    /// Where the text breaks, if that is to differ from what `wrap` says.
    pub break_line_on: Option<BreakLineOn>,
}

/// The layout of a text.
#[derive(Debug, Clone, Copy, PartialEq, Eq, Structural)]
pub struct TextPlan {
    pub color: Color,
    pub bounds: Option<Vec2>,
    pub linebreak_behavior: BreakLineOn,
}

/// Opaque white.
pub open spec fn spec_white() -> Color {
    Color { red: Fixed::one(), green: Fixed::one(), blue: Fixed::one(), alpha: Fixed::one() }
}

/// Opaque white.
#[verifier::when_used_as_spec(spec_white)]
pub fn white() -> (r: Color)
    ensures
        r == spec_white(),
{
    Color { red: Fixed::one(), green: Fixed::one(), blue: Fixed::one(), alpha: Fixed::one() }
}

impl TextBuilder {
    /// The layout of the text.
    pub fn plan(self) -> (r: TextPlan)
        ensures
            r == (TextPlan {
                color: match self.color {
                    Some(c) => c,
                    None => spec_white(),
                },
                bounds: self.bounds,
                linebreak_behavior: match self.break_line_on {
                    Some(b) => b,
                    None => if self.wrap {
                        BreakLineOn::WordBoundary
                    } else {
                        BreakLineOn::NoWrap
                    },
                },
            }),
    {
        TextPlan {
            color: match self.color {
                Some(c) => c,
                None => white(),
            },
            bounds: self.bounds,
            linebreak_behavior: line_break(self.break_line_on, self.wrap),
        }
    }
}

/// What became of a request that was handed to the host and answered
/// through a channel.
#[derive(Debug, Clone, Copy, PartialEq, Eq, Structural)]
pub enum AsyncFailure {
    /// The node does not have what was asked for.
    ComponentNotFound,
    /// The channel was closed before an answer came.
    ChannelClosed,
}

/// The result of a request: the answer, or why there is none. `received` is
/// what came through the channel, if it was still open: the answer, or
/// nothing where the node does not have what was asked for.
pub fn settle<T>(received: Option<Option<T>>) -> (r: Result<T, AsyncFailure>)
    ensures
        r == match received {
            Some(Some(out)) => Ok::<T, AsyncFailure>(out),
            Some(None) => Err::<T, AsyncFailure>(AsyncFailure::ComponentNotFound),
            None => Err::<T, AsyncFailure>(AsyncFailure::ChannelClosed),
        },
{
    match received {
        Some(Some(out)) => Ok(out),
        Some(None) => Err(AsyncFailure::ComponentNotFound),
        None => Err(AsyncFailure::ChannelClosed),
    }
}

} // verus!
