//! The signals that the widgets of the library use.

use vstd::prelude::*;
use crate::vec2::Vec2;
use crate::signals::object::Object;
use crate::signals::channel::SignalId;

verus! {

/// A button was clicked; the payload is whatever the button carries.
#[derive(Debug, Clone, Copy, PartialEq, Eq)]
pub struct ButtonClick;

/// A check button or toggle changed; the payload is its new state.
#[derive(Debug, Clone, Copy, PartialEq, Eq)]
pub struct ToggleChange;

/// A position shared between widgets that scroll or drag together.
#[derive(Debug, Clone, Copy, PartialEq, Eq)]
pub struct SharedPosition;

impl SignalId for ButtonClick {
    type Data = Object;

    open spec fn spec_key() -> u64 {
        1
    }

    fn key() -> (r: u64) {
        1
    }
}

impl SignalId for ToggleChange {
    type Data = bool;

    open spec fn spec_key() -> u64 {
        2
    }

    fn key() -> (r: u64) {
        2
    }
}

impl SignalId for SharedPosition {
    type Data = Vec2;

    open spec fn spec_key() -> u64 {
        3
    }

    fn key() -> (r: u64) {
        3
    }
}

} // verus!
