//! The set of pointer interactions.

use vstd::prelude::*;

verus! {

/// The pointer rests over the node and nothing else claims it.
pub const HOVER: u32 = 0x1;

/// The left button is held over the node.
pub const LEFT_PRESSED: u32 = 0x2;

/// The left button went down over the node in this frame.
pub const LEFT_DOWN: u32 = 0x4;

/// The middle button is held over the node.
pub const MID_PRESSED: u32 = 0x8;

/// The middle button went down over the node in this frame.
pub const MID_DOWN: u32 = 0x10;

/// The right button is held over the node.
pub const RIGHT_PRESSED: u32 = 0x20;

/// The right button went down over the node in this frame.
pub const RIGHT_DOWN: u32 = 0x40;

/// The node is dragged with the left button.
pub const LEFT_DRAG: u32 = 0x80;

/// The node is dragged with the middle button.
pub const MID_DRAG: u32 = 0x100;

/// The node is dragged with the right button.
pub const RIGHT_DRAG: u32 = 0x200;

/// A drag of the node ended in this frame.
pub const DRAG_END: u32 = 0x400;

/// A dragged node was released over the node.
pub const DROP: u32 = 0x800;

/// The left button was pressed and released over the node.
pub const LEFT_CLICK: u32 = 0x1000;

/// The node was clicked twice in quick succession.
pub const DOUBLE_CLICK: u32 = 0x2000;

/// The middle button was pressed and released over the node.
pub const MID_CLICK: u32 = 0x4000;

/// The right button was pressed and released over the node.
pub const RIGHT_CLICK: u32 = 0x8000;

/// A button was released somewhere outside the node.
pub const CLICK_OUTSIDE: u32 = 0x10000;

/// The wheel turned over the node.
pub const MOUSE_WHEEL: u32 = 0x20000;

/// A set of pointer interactions, one bit each.
///
/// On a node it lists the interactions the node takes part in; in a marker it
/// names the interaction that took place.
#[derive(Clone, Copy, Debug, PartialEq, Eq, Structural, Hash)]
pub struct EventFlags {
    /// The interactions in the set, as the union of their bits.
    pub bits: u32,
}

impl EventFlags {
    /// The set with the given bits.
    pub open spec fn spec_of(bits: u32) -> EventFlags {
        EventFlags { bits }
    }

    /// The set with the given bits.
    #[verifier::when_used_as_spec(spec_of)]
    pub fn of(bits: u32) -> (r: EventFlags)
        ensures
            r == EventFlags::spec_of(bits),
    {
        EventFlags { bits }
    }

    /// The empty set.
    pub open spec fn spec_empty() -> EventFlags {
        EventFlags { bits: 0 }
    }

    /// The empty set.
    #[verifier::when_used_as_spec(spec_empty)]
    pub fn empty() -> (r: EventFlags)
        ensures
            r == EventFlags::spec_empty(),
    {
        EventFlags { bits: 0 }
    }

    /// Whether the set holds nothing.
    pub open spec fn spec_is_empty(self) -> bool {
        self.bits == 0
    }

    /// Whether the set holds nothing.
    #[verifier::when_used_as_spec(spec_is_empty)]
    pub fn is_empty(self) -> (r: bool)
        ensures
            r == self.spec_is_empty(),
    {
        self.bits == 0
    }

    /// Whether every interaction of `other` is in the set.
    pub open spec fn spec_contains(self, other: EventFlags) -> bool {
        self.bits & other.bits == other.bits
    }

    /// Whether every interaction of `other` is in the set.
    #[verifier::when_used_as_spec(spec_contains)]
    pub fn contains(self, other: EventFlags) -> (r: bool)
        ensures
            r == self.spec_contains(other),
    {
        self.bits & other.bits == other.bits
    }

    /// Whether some interaction of `other` is in the set.
    pub open spec fn spec_intersects(self, other: EventFlags) -> bool {
        self.bits & other.bits != 0
    }

    /// Whether some interaction of `other` is in the set.
    #[verifier::when_used_as_spec(spec_intersects)]
    pub fn intersects(self, other: EventFlags) -> (r: bool)
        ensures
            r == self.spec_intersects(other),
    {
        self.bits & other.bits != 0
    }

    /// Whether the set is exactly `other`.
    pub open spec fn spec_is(self, other: EventFlags) -> bool {
        self.bits == other.bits
    }

    /// Whether the set is exactly `other`.
    #[verifier::when_used_as_spec(spec_is)]
    pub fn is(self, other: EventFlags) -> (r: bool)
        ensures
            r == self.spec_is(other),
    {
        self.bits == other.bits
    }

    /// The interactions of either set.
    pub open spec fn spec_union(self, other: EventFlags) -> EventFlags {
        EventFlags { bits: self.bits | other.bits }
    }

    /// The interactions of either set.
    #[verifier::when_used_as_spec(spec_union)]
    pub fn union(self, other: EventFlags) -> (r: EventFlags)
        ensures
            r == self.spec_union(other),
    {
        EventFlags { bits: self.bits | other.bits }
    }

    /// The interactions of both sets.
    pub open spec fn spec_intersection(self, other: EventFlags) -> EventFlags {
        EventFlags { bits: self.bits & other.bits }
    }

    /// The interactions of both sets.
    #[verifier::when_used_as_spec(spec_intersection)]
    pub fn intersection(self, other: EventFlags) -> (r: EventFlags)
        ensures
            r == self.spec_intersection(other),
    {
        EventFlags { bits: self.bits & other.bits }
    }
}

impl Default for EventFlags {
    fn default() -> (r: EventFlags)
        ensures
            r == EventFlags::spec_empty(),
    {
        EventFlags { bits: 0 }
    }
}

} // verus!
