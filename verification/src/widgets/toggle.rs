//! The two states of a toggle.

use vstd::prelude::*;
use crate::vec2::Vec2;
use crate::dimension::Dimension;
use crate::anim::interpolate::{Color, Interpolate, Offset};
use crate::widgets::colors::{StrokeColoring, StrokeColors};

verus! {

/// Whether a check button or toggle is on.
#[derive(Debug, Clone, Copy, PartialEq, Eq, Structural)]
pub enum CheckButtonState {
    Unchecked,
    Checked,
}

impl CheckButtonState {
    /// The state of a button that is checked or not.
    pub fn from_bool(checked: bool) -> (r: CheckButtonState)
        ensures
            r == if checked {
                CheckButtonState::Checked
            } else {
                CheckButtonState::Unchecked
            },
    {
        if checked {
            CheckButtonState::Checked
        } else {
            CheckButtonState::Unchecked
        }
    }

    /// The other state.
    pub fn toggled(self) -> (r: CheckButtonState)
        ensures
            r != self,
    {
        match self {
            CheckButtonState::Checked => CheckButtonState::Unchecked,
            CheckButtonState::Unchecked => CheckButtonState::Checked,
        }
    }
}

/// The two colours of a part of a toggle.
#[derive(Debug, Clone, Copy, PartialEq, Eq, Structural)]
pub struct ToggleColors {
    /// The colour while on.
    pub active: Color,
    /// The colour while off.
    pub inactive: Color,
}

impl ToggleColors {
    /// The colour for the state `check`.
    pub open spec fn spec_pick(self, check: CheckButtonState) -> Color {
        match check {
            CheckButtonState::Checked => self.active,
            CheckButtonState::Unchecked => self.inactive,
        }
    }

    /// The colour for the state `check`.
    #[verifier::when_used_as_spec(spec_pick)]
    pub fn pick(self, check: CheckButtonState) -> (r: Color)
        ensures
            r == self.spec_pick(check),
    {
        match check {
            CheckButtonState::Checked => self.active,
            CheckButtonState::Unchecked => self.inactive,
        }
    }
}

/// Sends the fill colour of a part of a toggle on its way to the colour of
/// the toggle's state.
pub fn toggle_color_change(
    check: &CheckButtonState,
    colors: &ToggleColors,
    color: &mut Interpolate<Color>,
)
    ensures
        final(color)@ == old(color)@.retargeted(colors.spec_pick(*check)),
        old(color)@.wf() ==> final(color)@.wf(),
{
    match check {
        CheckButtonState::Checked => color.interpolate_to(colors.active),
        CheckButtonState::Unchecked => color.interpolate_to(colors.inactive),
    }
}

/// Sends the outline colour of a part of a toggle on its way to the colour of
/// the toggle's state.
pub fn toggle_stroke_change(
    check: &CheckButtonState,
    colors: &StrokeColors<ToggleColors>,
    color: &mut Interpolate<StrokeColoring>,
)
    ensures
        final(color)@ == old(color)@.retargeted(colors.0.spec_pick(*check)),
        old(color)@.wf() ==> final(color)@.wf(),
{
    match check {
        CheckButtonState::Checked => color.interpolate_to(colors.0.active),
        CheckButtonState::Unchecked => color.interpolate_to(colors.0.inactive),
    }
}

/// Where the dial of a toggle sits and how large it is, on and off.
#[derive(Debug, Clone, Copy, PartialEq, Eq, Structural)]
pub struct ToggleDial {
    pub active_offset: Vec2,
    pub active_dimension: Vec2,
    pub inactive_offset: Vec2,
    pub inactive_dimension: Vec2,
}

/// Sends the dial of a toggle on its way to the place and size of the
/// toggle's state.
pub fn toggle_dial_change(
    check: &CheckButtonState,
    dial: &ToggleDial,
    offset: &mut Interpolate<Offset>,
    dimension: &mut Interpolate<Dimension>,
)
    ensures
        final(offset)@ == old(offset)@.retargeted(
            if *check is Checked {
                dial.active_offset
            } else {
                dial.inactive_offset
            },
        ),
        final(dimension)@ == old(dimension)@.retargeted(
            if *check is Checked {
                dial.active_dimension
            } else {
                dial.inactive_dimension
            },
        ),
        old(offset)@.wf() ==> final(offset)@.wf(),
        old(dimension)@.wf() ==> final(dimension)@.wf(),
{
    match check {
        CheckButtonState::Checked => {
            offset.interpolate_to(dial.active_offset);
            dimension.interpolate_to(dial.active_dimension);
        },
        CheckButtonState::Unchecked => {
            offset.interpolate_to(dial.inactive_offset);
            dimension.interpolate_to(dial.inactive_dimension);
        },
    }
}

} // verus!
