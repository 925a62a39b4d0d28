//! The pointer state machine.
//!
//! Once per frame the host hands over a snapshot of the pointer and the list
//! of nodes that can react to it. [`mouse_button_input`] updates the
//! persistent [`CursorState`] and returns the markers of that frame: which
//! node has the focus, which received an action, which was dropped on, and
//! which were clicked outside of. Markers live for one frame; only the drag
//! and the timestamps of the last two left presses survive in the state.

use vstd::prelude::*;
use crate::fixed::Fixed;
use crate::vec2::Vec2;
use crate::rect::{Hitbox, RotatedRect};
use crate::anim::interpolate::Opacity;
use crate::events::flags::{EventFlags, HOVER, LEFT_PRESSED, LEFT_DOWN, MID_PRESSED, MID_DOWN,
    RIGHT_PRESSED, RIGHT_DOWN, LEFT_DRAG, MID_DRAG, RIGHT_DRAG, DRAG_END, DROP, LEFT_CLICK,
    DOUBLE_CLICK, MID_CLICK, RIGHT_CLICK, CLICK_OUTSIDE, MOUSE_WHEEL};

verus! {

/// The stable key of a node in the host's scene graph.
#[derive(Clone, Copy, Debug, PartialEq, Eq, Structural, Hash)]
pub struct NodeId(pub u64);

/// A button of the pointing device.
#[derive(Clone, Copy, Debug, PartialEq, Eq, Structural)]
pub enum MouseButton {
    /// The primary button.
    Left,
    /// The secondary button.
    Right,
    /// The wheel button.
    Middle,
}

/// What one button does in one frame.
#[derive(Clone, Copy, Debug, PartialEq, Eq, Structural)]
pub struct ButtonState {
    /// The button is held down.
    pub pressed: bool,
    /// The button went down in this frame.
    pub just_pressed: bool,
    /// The button came up in this frame.
    pub just_released: bool,
}

/// One frame of pointer input.
#[derive(Clone, Copy, Debug, PartialEq, Eq, Structural)]
pub struct PointerInput {
    /// World position of the pointer, if it is over the window.
    pub position: Option<Vec2>,
    /// The left button.
    pub left: ButtonState,
    /// The right button.
    pub right: ButtonState,
    /// The middle button.
    pub middle: ButtonState,
    /// Seconds since the engine started.
    pub now: Fixed,
    /// Longest time from a press to the release of the next click for the
    /// two to count as a double click.
    pub double_click: Fixed,
    /// Whether the node held as drag target still exists.
    pub target_alive: bool,
}

/// A node that may react to the pointer.
#[derive(Clone, Copy, Debug, PartialEq, Eq, Structural)]
pub struct Candidate {
    /// The node.
    pub node: NodeId,
    /// The interactions the node takes part in.
    pub flags: EventFlags,
    /// Whether the node is visible and enabled.
    pub active: bool,
    /// The region of the node that reacts.
    pub hitbox: Hitbox,
    /// Where the node is.
    pub rect: RotatedRect,
}

/// A question put to every candidate: does it take part in one of the
/// interactions of `mask`, and does its hitbox hold `at` (and `also`, if
/// given)?
#[derive(Clone, Copy, Debug, PartialEq, Eq, Structural)]
pub struct Probe {
    /// The interactions asked for.
    pub mask: EventFlags,
    /// A position the hitbox must hold.
    pub at: Vec2,
    /// A second position the hitbox must hold.
    pub also: Option<Vec2>,
}

/// An interaction attached to a node for one frame.
#[derive(Clone, Copy, Debug, PartialEq, Eq, Structural)]
pub struct Marker {
    /// The node that carries the marker.
    pub node: NodeId,
    /// The interaction.
    pub flags: EventFlags,
}

/// The pointer state that lasts from frame to frame.
#[derive(Clone, Copy, Debug, PartialEq, Eq, Structural)]
pub struct CursorState {
    /// Time of the left press before the last one.
    pub prev_down: Option<Fixed>,
    /// Time of the last left press.
    pub last_down: Option<Fixed>,
    /// Pointer position of the last frame that had one.
    pub cursor_pos: Vec2,
    /// Pointer position when a button last went down.
    pub down_pos: Vec2,
    /// While set, nothing is dispatched.
    pub blocked: bool,
    /// A drag is under way.
    pub dragging: bool,
    /// The button that drags.
    pub drag_button: MouseButton,
    /// The node being dragged.
    pub drag_target: Option<NodeId>,
    /// Whether the dragged node also takes double clicks.
    pub drag_dbl_click: bool,
    /// The node that has the focus in this frame.
    pub focused: Option<NodeId>,
    /// Whether some node took the pointer in this frame.
    pub caught: bool,
}

/// The markers of one frame, as mathematical values.
pub struct FrameModel {
    /// The node that has the focus and how.
    pub focus: Option<Marker>,
    /// The node that received an action and which.
    pub action: Option<Marker>,
    /// The node a drag was dropped on.
    pub dropped: Option<NodeId>,
    /// The nodes a button was released outside of, in candidate order.
    pub click_outside: Seq<NodeId>,
}

/// The markers of one frame.
#[derive(Debug)]
pub struct CursorFrame {
    /// The node that has the focus and how.
    pub focus: Option<Marker>,
    /// The node that received an action and which.
    pub action: Option<Marker>,
    /// The node a drag was dropped on.
    pub dropped: Option<NodeId>,
    /// The nodes a button was released outside of, in candidate order.
    pub click_outside: Vec<NodeId>,
}

impl View for CursorFrame {
    type V = FrameModel;

    open spec fn view(&self) -> FrameModel {
        FrameModel {
            focus: self.focus,
            action: self.action,
            dropped: self.dropped,
            click_outside: self.click_outside@,
        }
    }
}

/// A state and the markers of the frame that led to it.
pub struct Outcome {
    /// The state after the frame.
    pub state: CursorState,
    /// The markers of the frame.
    pub frame: FrameModel,
}

impl FrameModel {
    /// The frame without any marker.
    pub open spec fn empty() -> FrameModel {
        FrameModel { focus: None, action: None, dropped: None, click_outside: Seq::empty() }
    }

    /// The action that `node` is left with. A drop goes onto the node after
    /// the action of the drag that ended, so where both fall on one node the
    /// drop is what stays.
    pub open spec fn action_of(self, node: NodeId) -> Option<EventFlags> {
        if self.dropped == Some(node) {
            Some(EventFlags::of(DROP))
        } else if self.action is Some && self.action->0.node == node {
            Some(self.action->0.flags)
        } else {
            None
        }
    }

    /// The focus that `node` has, if any.
    pub open spec fn focus_of(self, node: NodeId) -> Option<EventFlags> {
        if self.focus is Some && self.focus->0.node == node {
            Some(self.focus->0.flags)
        } else {
            None
        }
    }

    /// Whether `node` was clicked outside of.
    pub open spec fn is_outside(self, node: NodeId) -> bool {
        self.click_outside.contains(node)
    }
}

impl CursorFrame {
    /// The frame without any marker.
    pub fn new() -> (r: CursorFrame)
        ensures
            r@ == FrameModel::empty(),
    {
        CursorFrame { focus: None, action: None, dropped: None, click_outside: Vec::new() }
    }

    /// The action that `node` is left with; see [`FrameModel::action_of`].
    pub fn action_of(&self, node: NodeId) -> (r: Option<EventFlags>)
        ensures
            r == self@.action_of(node),
    {
        if let Some(d) = self.dropped {
            if d == node {
                return Some(EventFlags::of(DROP));
            }
        }
        if let Some(m) = self.action {
            if m.node == node {
                return Some(m.flags);
            }
        }
        None
    }

    /// The focus that `node` has, if any.
    pub fn focus_of(&self, node: NodeId) -> (r: Option<EventFlags>)
        ensures
            r == self@.focus_of(node),
    {
        if let Some(m) = self.focus {
            if m.node == node {
                return Some(m.flags);
            }
        }
        None
    }

    /// Whether `node` was clicked outside of.
    pub fn is_outside(&self, node: NodeId) -> (r: bool)
        ensures
            r == self@.is_outside(node),
    {
        let mut i: usize = 0;
        while i < self.click_outside.len()
            invariant
                i <= self.click_outside.len(),
                forall|j: int| 0 <= j < i ==> self.click_outside@[j] != node,
            decreases self.click_outside.len() - i,
        {
            if self.click_outside[i] == node {
                return true;
            }
            i += 1;
        }
        false
    }
}

/// Removes every marker of the frame: none is carried into the next one.
pub fn remove_focus(frame: &mut CursorFrame)
    ensures
        final(frame)@ == FrameModel::empty(),
{
    frame.focus = None;
    frame.action = None;
    frame.dropped = None;
    frame.click_outside = Vec::new();
}

impl MouseButton {
    /// The focus of a node dragged with this button.
    pub open spec fn spec_drag_flag(self) -> EventFlags {
        match self {
            MouseButton::Left => EventFlags::of(LEFT_DRAG),
            MouseButton::Right => EventFlags::of(RIGHT_DRAG),
            MouseButton::Middle => EventFlags::of(MID_DRAG),
        }
    }

    /// The focus of a node dragged with this button.
    #[verifier::when_used_as_spec(spec_drag_flag)]
    pub fn drag_flag(self) -> (r: EventFlags)
        ensures
            r == self.spec_drag_flag(),
    {
        match self {
            MouseButton::Left => EventFlags::of(LEFT_DRAG),
            MouseButton::Right => EventFlags::of(RIGHT_DRAG),
            MouseButton::Middle => EventFlags::of(MID_DRAG),
        }
    }

    /// The action of a click with this button.
    pub open spec fn spec_click_flag(self) -> EventFlags {
        match self {
            MouseButton::Left => EventFlags::of(LEFT_CLICK),
            MouseButton::Right => EventFlags::of(RIGHT_CLICK),
            MouseButton::Middle => EventFlags::of(MID_CLICK),
        }
    }

    /// The action of a click with this button.
    #[verifier::when_used_as_spec(spec_click_flag)]
    pub fn click_flag(self) -> (r: EventFlags)
        ensures
            r == self.spec_click_flag(),
    {
        match self {
            MouseButton::Left => EventFlags::of(LEFT_CLICK),
            MouseButton::Right => EventFlags::of(RIGHT_CLICK),
            MouseButton::Middle => EventFlags::of(MID_CLICK),
        }
    }

    /// The action of this button going down.
    pub open spec fn spec_down_flag(self) -> EventFlags {
        match self {
            MouseButton::Left => EventFlags::of(LEFT_DOWN),
            MouseButton::Right => EventFlags::of(RIGHT_DOWN),
            MouseButton::Middle => EventFlags::of(MID_DOWN),
        }
    }

    /// The action of this button going down.
    #[verifier::when_used_as_spec(spec_down_flag)]
    pub fn down_flag(self) -> (r: EventFlags)
        ensures
            r == self.spec_down_flag(),
    {
        match self {
            MouseButton::Left => EventFlags::of(LEFT_DOWN),
            MouseButton::Right => EventFlags::of(RIGHT_DOWN),
            MouseButton::Middle => EventFlags::of(MID_DOWN),
        }
    }

    /// The focus of a node this button is held over.
    pub open spec fn spec_pressed_flag(self) -> EventFlags {
        match self {
            MouseButton::Left => EventFlags::of(LEFT_PRESSED),
            MouseButton::Right => EventFlags::of(RIGHT_PRESSED),
            MouseButton::Middle => EventFlags::of(MID_PRESSED),
        }
    }

    /// The focus of a node this button is held over.
    #[verifier::when_used_as_spec(spec_pressed_flag)]
    pub fn pressed_flag(self) -> (r: EventFlags)
        ensures
            r == self.spec_pressed_flag(),
    {
        match self {
            MouseButton::Left => EventFlags::of(LEFT_PRESSED),
            MouseButton::Right => EventFlags::of(RIGHT_PRESSED),
            MouseButton::Middle => EventFlags::of(MID_PRESSED),
        }
    }
}

impl PointerInput {
    /// What the button `b` does in this frame.
    pub open spec fn spec_button(self, b: MouseButton) -> ButtonState {
        match b {
            MouseButton::Left => self.left,
            MouseButton::Right => self.right,
            MouseButton::Middle => self.middle,
        }
    }

    /// What the button `b` does in this frame.
    #[verifier::when_used_as_spec(spec_button)]
    pub fn button(self, b: MouseButton) -> (r: ButtonState)
        ensures
            r == self.spec_button(b),
    {
        match b {
            MouseButton::Left => self.left,
            MouseButton::Right => self.right,
            MouseButton::Middle => self.middle,
        }
    }

    /// The button other than `dragging` that went down in this frame, as the
    /// action it gives: left before right before middle.
    pub open spec fn spec_other_down(self, dragging: MouseButton) -> Option<EventFlags> {
        if dragging != MouseButton::Left && self.left.just_pressed {
            Some(EventFlags::of(LEFT_DOWN))
        } else if dragging != MouseButton::Right && self.right.just_pressed {
            Some(EventFlags::of(RIGHT_DOWN))
        } else if dragging != MouseButton::Middle && self.middle.just_pressed {
            Some(EventFlags::of(MID_DOWN))
        } else {
            None
        }
    }

    /// The button other than `dragging` that went down in this frame, as the
    /// action it gives.
    #[verifier::when_used_as_spec(spec_other_down)]
    pub fn other_down(self, dragging: MouseButton) -> (r: Option<EventFlags>)
        ensures
            r == self.spec_other_down(dragging),
    {
        if dragging != MouseButton::Left && self.left.just_pressed {
            Some(EventFlags::of(LEFT_DOWN))
        } else if dragging != MouseButton::Right && self.right.just_pressed {
            Some(EventFlags::of(RIGHT_DOWN))
        } else if dragging != MouseButton::Middle && self.middle.just_pressed {
            Some(EventFlags::of(MID_DOWN))
        } else {
            None
        }
    }

    /// The button that came up in this frame: left before right before
    /// middle.
    pub open spec fn spec_released(self) -> Option<MouseButton> {
        if self.left.just_released {
            Some(MouseButton::Left)
        } else if self.right.just_released {
            Some(MouseButton::Right)
        } else if self.middle.just_released {
            Some(MouseButton::Middle)
        } else {
            None
        }
    }

    /// The button that came up in this frame.
    #[verifier::when_used_as_spec(spec_released)]
    pub fn released(self) -> (r: Option<MouseButton>)
        ensures
            r == self.spec_released(),
    {
        if self.left.just_released {
            Some(MouseButton::Left)
        } else if self.right.just_released {
            Some(MouseButton::Right)
        } else if self.middle.just_released {
            Some(MouseButton::Middle)
        } else {
            None
        }
    }
}

/// Whether a node of the given opacity takes input: it does unless it is
/// disabled or covered. A node without opacity always does.
pub open spec fn spec_takes_input(opacity: Option<Opacity>) -> bool {
    match opacity {
        Some(o) => !o.disabled && !o.occluded,
        None => true,
    }
}

/// Whether a node of the given opacity takes input; see
/// [`spec_takes_input`].
#[verifier::when_used_as_spec(spec_takes_input)]
pub fn takes_input(opacity: Option<Opacity>) -> (r: bool)
    ensures
        r == spec_takes_input(opacity),
{
    match opacity {
        Some(o) => !o.disabled && !o.occluded,
        None => true,
    }
}

impl Candidate {
    /// The candidate that stands for a node as the host sees it: with its
    /// interactions, hitbox and rectangle, and active where its opacity lets
    /// it take input.
    pub fn observe(
        node: NodeId,
        flags: EventFlags,
        hitbox: Hitbox,
        rect: RotatedRect,
        opacity: Option<Opacity>,
    ) -> (r: Candidate)
        ensures
            r == (Candidate { node, flags, active: spec_takes_input(opacity), hitbox, rect }),
    {
        Candidate { node, flags, active: takes_input(opacity), hitbox, rect }
    }

    /// Whether the hitbox of the candidate holds the world position `p`.
    pub open spec fn spec_hit(self, p: Vec2) -> bool {
        self.hitbox.contains(self.rect, p)
    }

    /// Whether the hitbox of the candidate holds the world position `p`.
    #[verifier::when_used_as_spec(spec_hit)]
    pub fn hit(self, p: Vec2) -> (r: bool)
        ensures
            r == self.spec_hit(p),
    {
        self.hitbox.contains(self.rect, p)
    }

    /// Whether the candidate answers the probe: it is active, takes part in
    /// an interaction asked for, and its hitbox holds the positions asked for.
    pub open spec fn spec_answers(self, probe: Probe) -> bool {
        &&& self.active
        &&& self.flags.intersects(probe.mask)
        &&& self.spec_hit(probe.at)
        &&& (probe.also matches Some(d) ==> self.spec_hit(d))
    }

    /// Whether the candidate answers the probe.
    #[verifier::when_used_as_spec(spec_answers)]
    pub fn answers(self, probe: Probe) -> (r: bool)
        ensures
            r == self.spec_answers(probe),
    {
        if !(self.active && self.flags.intersects(probe.mask) && self.hit(probe.at)) {
            return false;
        }
        match probe.also {
            Some(d) => self.hit(d),
            None => true,
        }
    }

    /// Whether a release at `at` counts as a click outside of the candidate:
    /// it is active, asks for such clicks, is not the node `except`, and its
    /// hitbox does not hold `at`.
    pub open spec fn spec_misses(self, at: Vec2, except: Option<NodeId>) -> bool {
        &&& self.active
        &&& self.flags.intersects(EventFlags::of(CLICK_OUTSIDE))
        &&& except != Some(self.node)
        &&& !self.spec_hit(at)
    }

    /// Whether a release at `at` counts as a click outside of the candidate.
    #[verifier::when_used_as_spec(spec_misses)]
    pub fn misses(self, at: Vec2, except: Option<NodeId>) -> (r: bool)
        ensures
            r == self.spec_misses(at, except),
    {
        if !(self.active && self.flags.intersects(EventFlags::of(CLICK_OUTSIDE))) {
            return false;
        }
        if let Some(e) = except {
            if e == self.node {
                return false;
            }
        }
        !self.hit(at)
    }
}

/// The index of the top-most candidate among the first `n` that answers the
/// probe: the one of greatest depth, and of those the last in the list.
pub open spec fn topmost(cands: Seq<Candidate>, probe: Probe, n: int) -> Option<int>
    decreases n,
{
    if n <= 0 {
        None
    } else {
        let rest = topmost(cands, probe, n - 1);
        let c = cands[n - 1];
        if c.answers(probe) && (rest matches Some(k) ==> cands[k].rect.z@ <= c.rect.z@) {
            Some(n - 1)
        } else {
            rest
        }
    }
}

/// The node of the top-most candidate that answers the probe.
pub open spec fn topmost_node(cands: Seq<Candidate>, probe: Probe) -> Option<NodeId> {
    match topmost(cands, probe, cands.len() as int) {
        Some(k) => Some(cands[k].node),
        None => None,
    }
}

/// The nodes among the first `n` candidates that a release at `at` is outside
/// of, in the order of the list.
pub open spec fn outside(cands: Seq<Candidate>, at: Vec2, except: Option<NodeId>, n: int) -> Seq<
    NodeId,
>
    decreases n,
{
    if n <= 0 {
        Seq::empty()
    } else {
        let rest = outside(cands, at, except, n - 1);
        let c = cands[n - 1];
        if c.misses(at, except) {
            rest.push(c.node)
        } else {
            rest
        }
    }
}

/// What [`topmost`] picks: nothing exactly when no candidate answers, and
/// otherwise a candidate that answers, with no answering candidate above it
/// and none of equal depth after it.
pub proof fn lemma_topmost(cands: Seq<Candidate>, probe: Probe, n: int)
    requires
        0 <= n <= cands.len(),
    ensures
        topmost(cands, probe, n) is None <==> forall|i: int|
            0 <= i < n ==> !(#[trigger] cands[i]).answers(probe),
        topmost(cands, probe, n) matches Some(k) ==> {
            &&& 0 <= k < n
            &&& cands[k].answers(probe)
            &&& forall|i: int|
                0 <= i < n && (#[trigger] cands[i]).answers(probe) ==> {
                    &&& cands[i].rect.z@ <= cands[k].rect.z@
                    &&& (cands[i].rect.z@ == cands[k].rect.z@ ==> i <= k)
                }
        },
    decreases n,
{
    if n > 0 {
        lemma_topmost(cands, probe, n - 1);
    }
}

/// The top-most candidate that answers the probe, by index.
pub fn pick_topmost(cands: &Vec<Candidate>, probe: Probe) -> (r: Option<usize>)
    ensures
        match r {
            Some(k) => topmost(cands@, probe, cands@.len() as int) == Some(k as int) && k
                < cands@.len(),
            None => topmost(cands@, probe, cands@.len() as int) is None,
        },
{
    let mut best: Option<usize> = None;
    let mut i: usize = 0;
    while i < cands.len()
        invariant
            i <= cands.len(),
            match best {
                Some(k) => topmost(cands@, probe, i as int) == Some(k as int) && k < i,
                None => topmost(cands@, probe, i as int) is None,
            },
        decreases cands.len() - i,
    {
        let c = cands[i];
        if c.answers(probe) {
            match best {
                Some(k) => {
                    if cands[k].rect.z.raw <= c.rect.z.raw {
                        best = Some(i);
                    }
                },
                None => {
                    best = Some(i);
                },
            }
        }
        i += 1;
    }
    best
}

/// The node of the top-most candidate that answers the probe.
pub fn pick_topmost_node(cands: &Vec<Candidate>, probe: Probe) -> (r: Option<NodeId>)
    ensures
        r == topmost_node(cands@, probe),
{
    match pick_topmost(cands, probe) {
        Some(k) => Some(cands[k].node),
        None => None,
    }
}

/// The nodes that a release at `at` is outside of, in the order of the list.
pub fn collect_outside(cands: &Vec<Candidate>, at: Vec2, except: Option<NodeId>) -> (r: Vec<
    NodeId,
>)
    ensures
        r@ == outside(cands@, at, except, cands@.len() as int),
{
    let mut out: Vec<NodeId> = Vec::new();
    let mut i: usize = 0;
    while i < cands.len()
        invariant
            i <= cands.len(),
            out@ == outside(cands@, at, except, i as int),
        decreases cands.len() - i,
    {
        let c = cands[i];
        if c.misses(at, except) {
            out.push(c.node);
        }
        i += 1;
    }
    out
}

/// Whether `now` lies within `window` of the recorded time `earlier`.
pub open spec fn spec_within_window(now: Fixed, earlier: Option<Fixed>, window: Fixed) -> bool {
    earlier matches Some(t) && now.minus(t)@ <= window@
}

/// Whether `now` lies within `window` of the recorded time `earlier`.
#[verifier::when_used_as_spec(spec_within_window)]
pub fn within_window(now: Fixed, earlier: Option<Fixed>, window: Fixed) -> (r: bool)
    ensures
        r == spec_within_window(now, earlier, window),
{
    match earlier {
        Some(t) => now.minus(t).raw <= window.raw,
        None => false,
    }
}

impl CursorState {
    /// The state before any input: nothing pressed, dragged or focused.
    pub open spec fn spec_new() -> CursorState {
        CursorState {
            prev_down: None,
            last_down: None,
            cursor_pos: Vec2::zero(),
            down_pos: Vec2::zero(),
            blocked: false,
            dragging: false,
            drag_button: MouseButton::Left,
            drag_target: None,
            drag_dbl_click: false,
            focused: None,
            caught: false,
        }
    }

    /// The state before any input.
    #[verifier::when_used_as_spec(spec_new)]
    pub fn new() -> (r: CursorState)
        ensures
            r == CursorState::spec_new(),
    {
        CursorState {
            prev_down: None,
            last_down: None,
            cursor_pos: Vec2::zero(),
            down_pos: Vec2::zero(),
            blocked: false,
            dragging: false,
            drag_button: MouseButton::Left,
            drag_target: None,
            drag_dbl_click: false,
            focused: None,
            caught: false,
        }
    }

    /// The state with both recorded press times forgotten, so that the next
    /// click cannot complete a double click.
    pub open spec fn spec_clear_dbl_click(self) -> CursorState {
        CursorState { prev_down: None, last_down: None, ..self }
    }

    /// This state with the press at `now` recorded: the last press becomes
    /// the one before.
    pub open spec fn spec_record_down(self, now: Fixed) -> CursorState {
        CursorState { prev_down: self.last_down, last_down: Some(now), ..self }
    }

    /// Stops or allows dispatch.
    pub fn set_blocked(&mut self, blocked: bool)
        ensures
            *final(self) == (CursorState { blocked, ..*old(self) }),
    {
        self.blocked = blocked;
    }
}

/// A frame in which a drag is under way. `s` has the pointer position `p`
/// stored and the focus cleared.
///
/// With a live target the target keeps the focus wherever the pointer is.
/// While the dragging button is held the focus is the drag, and another
/// button going down is passed to the target as an action. Once the button is
/// up the drag ends: the target gets `DRAG_END` (or `DOUBLE_CLICK`, if it
/// takes double clicks and the release is within the window of the press
/// before the last), the focus falls back to hovering, the top-most node that
/// takes drops and holds `p` is dropped on, and every other node that watches
/// for clicks outside and does not hold `p` is marked. Without a live target
/// the drag just ends once the button is up.
pub open spec fn drag_frame(s: CursorState, input: PointerInput, cands: Seq<Candidate>, p: Vec2)
    -> Outcome {
    let s = CursorState { caught: true, ..s };
    let held = input.button(s.drag_button).pressed;
    if s.drag_target is Some && input.target_alive {
        let t = s.drag_target->0;
        if !held {
            let dbl = s.drag_dbl_click && within_window(input.now, s.prev_down, input.double_click);
            let s2 = CursorState { focused: Some(t), dragging: false, drag_target: None, ..s };
            Outcome {
                state: if dbl {
                    s2.spec_clear_dbl_click()
                } else {
                    s2
                },
                frame: FrameModel {
                    focus: Some(Marker { node: t, flags: EventFlags::of(HOVER) }),
                    action: Some(
                        Marker {
                            node: t,
                            flags: if dbl {
                                EventFlags::of(DOUBLE_CLICK)
                            } else {
                                EventFlags::of(DRAG_END)
                            },
                        },
                    ),
                    dropped: topmost_node(
                        cands,
                        Probe { mask: EventFlags::of(DROP), at: p, also: None },
                    ),
                    click_outside: outside(cands, p, Some(t), cands.len() as int),
                },
            }
        } else {
            Outcome {
                state: CursorState { focused: Some(t), ..s },
                frame: FrameModel {
                    focus: Some(Marker { node: t, flags: s.drag_button.drag_flag() }),
                    action: match input.other_down(s.drag_button) {
                        Some(f) => Some(Marker { node: t, flags: f }),
                        None => None,
                    },
                    dropped: None,
                    click_outside: Seq::empty(),
                },
            }
        }
    } else if !held {
        Outcome {
            state: CursorState { dragging: false, drag_target: None, ..s },
            frame: FrameModel {
                focus: None,
                action: None,
                dropped: None,
                click_outside: outside(cands, p, None, cands.len() as int),
            },
        }
    } else {
        Outcome { state: s, frame: FrameModel::empty() }
    }
}

/// A frame in which no drag is under way and `button` is held. `s` has the
/// pointer position `p` stored and the focus cleared.
///
/// A button that just went down stores `p` as the press position, and the
/// left button also records the time. The top-most node under the pointer
/// that takes drags or clicks of the button catches the pointer. On the frame
/// of the press it receives the button's down action, and becomes the drag
/// target at once if it takes drags; otherwise, and on later frames if it
/// takes clicks, its focus is "pressed".
pub open spec fn press_frame(
    s: CursorState,
    input: PointerInput,
    cands: Seq<Candidate>,
    p: Vec2,
    button: MouseButton,
) -> Outcome {
    let fresh = input.button(button).just_pressed;
    let s1 = if fresh {
        let moved = CursorState { down_pos: p, ..s };
        if button == MouseButton::Left {
            moved.spec_record_down(input.now)
        } else {
            moved
        }
    } else {
        s
    };
    let probe = Probe { mask: button.drag_flag().union(button.click_flag()), at: p, also: None };
    match topmost(cands, probe, cands.len() as int) {
        None => Outcome { state: s1, frame: FrameModel::empty() },
        Some(k) => {
            let c = cands[k];
            let s2 = CursorState { caught: true, ..s1 };
            if fresh {
                if c.flags.contains(button.drag_flag()) {
                    Outcome {
                        state: CursorState {
                            drag_target: Some(c.node),
                            dragging: true,
                            drag_button: button,
                            drag_dbl_click: button == MouseButton::Left && c.flags.contains(
                                EventFlags::of(DOUBLE_CLICK),
                            ),
                            focused: Some(c.node),
                            ..s2
                        },
                        frame: FrameModel {
                            focus: Some(Marker { node: c.node, flags: button.drag_flag() }),
                            action: Some(Marker { node: c.node, flags: button.down_flag() }),
                            dropped: None,
                            click_outside: Seq::empty(),
                        },
                    }
                } else {
                    Outcome {
                        state: CursorState { focused: Some(c.node), ..s2 },
                        frame: FrameModel {
                            focus: Some(Marker { node: c.node, flags: button.pressed_flag() }),
                            action: Some(Marker { node: c.node, flags: button.down_flag() }),
                            dropped: None,
                            click_outside: Seq::empty(),
                        },
                    }
                }
            } else if c.flags.contains(button.click_flag()) {
                Outcome {
                    state: CursorState { focused: Some(c.node), ..s2 },
                    frame: FrameModel {
                        focus: Some(Marker { node: c.node, flags: button.pressed_flag() }),
                        action: None,
                        dropped: None,
                        click_outside: Seq::empty(),
                    },
                }
            } else {
                Outcome { state: s2, frame: FrameModel::empty() }
            }
        },
    }
}

/// A frame in which no drag is under way and no button is held. `s` has the
/// pointer position `p` stored and the focus cleared.
///
/// If a button came up, the top-most node that takes its clicks and holds
/// both `p` and the press position is clicked; a left click on a node that
/// takes double clicks, released within the window of the press before the
/// last, is a double click and forgets the recorded presses. Every node that
/// watches for clicks outside and does not hold `p` is marked. In any case the
/// top-most node that takes hovering and holds `p` gets the focus.
pub open spec fn idle_frame(s: CursorState, input: PointerInput, cands: Seq<Candidate>, p: Vec2)
    -> Outcome {
    let n = cands.len() as int;
    let hover = topmost(cands, Probe { mask: EventFlags::of(HOVER), at: p, also: None }, n);
    let focus = match hover {
        Some(h) => Some(Marker { node: cands[h].node, flags: EventFlags::of(HOVER) }),
        None => None,
    };
    let focused = match hover {
        Some(h) => Some(cands[h].node),
        None => None,
    };
    match input.released() {
        Some(b) => {
            let hit = topmost(
                cands,
                Probe { mask: b.click_flag(), at: p, also: Some(s.down_pos) },
                n,
            );
            let dbl = b == MouseButton::Left && hit is Some && cands[hit->0].flags.contains(
                EventFlags::of(DOUBLE_CLICK),
            ) && within_window(input.now, s.prev_down, input.double_click);
            let s1 = if dbl {
                s.spec_clear_dbl_click()
            } else {
                s
            };
            Outcome {
                state: CursorState { caught: hit is Some || hover is Some, focused, ..s1 },
                frame: FrameModel {
                    focus,
                    action: match hit {
                        Some(k) => Some(
                            Marker {
                                node: cands[k].node,
                                flags: if dbl {
                                    EventFlags::of(DOUBLE_CLICK)
                                } else {
                                    b.click_flag()
                                },
                            },
                        ),
                        None => None,
                    },
                    dropped: None,
                    click_outside: outside(cands, p, None, n),
                },
            }
        },
        None => Outcome {
            state: CursorState { caught: hover is Some, focused, ..s },
            frame: FrameModel { focus, action: None, dropped: None, click_outside: Seq::empty() },
        },
    }
}

/// One frame of the pointer state machine.
///
/// The focus of the last frame is always forgotten first. While the state is
/// blocked, or the pointer has no position, nothing else happens. Otherwise
/// the position is stored and the frame is a drag frame, a press frame of the
/// first held button (left before right before middle) or an idle frame.
pub open spec fn frame_outcome(state: CursorState, input: PointerInput, cands: Seq<Candidate>)
    -> Outcome {
    let s0 = CursorState { caught: false, focused: None, ..state };
    if state.blocked || input.position is None {
        Outcome { state: s0, frame: FrameModel::empty() }
    } else {
        let p = input.position->0;
        let s1 = CursorState { cursor_pos: p, ..s0 };
        if s1.dragging {
            drag_frame(s1, input, cands, p)
        } else if input.left.pressed {
            press_frame(s1, input, cands, p, MouseButton::Left)
        } else if input.right.pressed {
            press_frame(s1, input, cands, p, MouseButton::Right)
        } else if input.middle.pressed {
            press_frame(s1, input, cands, p, MouseButton::Middle)
        } else {
            idle_frame(s1, input, cands, p)
        }
    }
}

fn run_drag_frame(state: &mut CursorState, input: &PointerInput, cands: &Vec<Candidate>, p: Vec2)
    -> (frame: CursorFrame)
    ensures
        *final(state) == drag_frame(*old(state), *input, cands@, p).state,
        frame@ == drag_frame(*old(state), *input, cands@, p).frame,
{
    let mut frame = CursorFrame::new();
    state.caught = true;
    let held = input.button(state.drag_button).pressed;
    let target = if input.target_alive {
        state.drag_target
    } else {
        None
    };
    match target {
        Some(t) => {
            state.focused = Some(t);
            if !held {
                let dbl = state.drag_dbl_click && within_window(
                    input.now,
                    state.prev_down,
                    input.double_click,
                );
                state.dragging = false;
                state.drag_target = None;
                if dbl {
                    state.prev_down = None;
                    state.last_down = None;
                    frame.action = Some(Marker { node: t, flags: EventFlags::of(DOUBLE_CLICK) });
                } else {
                    frame.action = Some(Marker { node: t, flags: EventFlags::of(DRAG_END) });
                }
                frame.focus = Some(Marker { node: t, flags: EventFlags::of(HOVER) });
                frame.dropped =
                pick_topmost_node(cands, Probe { mask: EventFlags::of(DROP), at: p, also: None });
                frame.click_outside = collect_outside(cands, p, Some(t));
            } else {
                frame.focus = Some(Marker { node: t, flags: state.drag_button.drag_flag() });
                frame.action = match input.other_down(state.drag_button) {
                    Some(f) => Some(Marker { node: t, flags: f }),
                    None => None,
                };
            }
        },
        None => {
            if !held {
                state.dragging = false;
                state.drag_target = None;
                frame.click_outside = collect_outside(cands, p, None);
            }
        },
    }
    frame
}

fn run_press_frame(
    state: &mut CursorState,
    input: &PointerInput,
    cands: &Vec<Candidate>,
    p: Vec2,
    button: MouseButton,
) -> (frame: CursorFrame)
    ensures
        *final(state) == press_frame(*old(state), *input, cands@, p, button).state,
        frame@ == press_frame(*old(state), *input, cands@, p, button).frame,
{
    let mut frame = CursorFrame::new();
    let fresh = input.button(button).just_pressed;
    if fresh {
        state.down_pos = p;
        if button == MouseButton::Left {
            state.prev_down = state.last_down;
            state.last_down = Some(input.now);
        }
    }
    let probe = Probe { mask: button.drag_flag().union(button.click_flag()), at: p, also: None };
    match pick_topmost(cands, probe) {
        None => {},
        Some(k) => {
            let c = cands[k];
            state.caught = true;
            if fresh {
                frame.action = Some(Marker { node: c.node, flags: button.down_flag() });
                if c.flags.contains(button.drag_flag()) {
                    state.drag_target = Some(c.node);
                    state.dragging = true;
                    state.drag_button = button;
                    state.drag_dbl_click = button == MouseButton::Left && c.flags.contains(
                        EventFlags::of(DOUBLE_CLICK),
                    );
                    frame.focus = Some(Marker { node: c.node, flags: button.drag_flag() });
                } else {
                    frame.focus = Some(Marker { node: c.node, flags: button.pressed_flag() });
                }
                state.focused = Some(c.node);
            } else if c.flags.contains(button.click_flag()) {
                frame.focus = Some(Marker { node: c.node, flags: button.pressed_flag() });
                state.focused = Some(c.node);
            }
        },
    }
    frame
}

fn run_idle_frame(state: &mut CursorState, input: &PointerInput, cands: &Vec<Candidate>, p: Vec2)
    -> (frame: CursorFrame)
    ensures
        *final(state) == idle_frame(*old(state), *input, cands@, p).state,
        frame@ == idle_frame(*old(state), *input, cands@, p).frame,
{
    let mut frame = CursorFrame::new();
    let mut caught = false;
    match input.released() {
        Some(b) => {
            let probe = Probe { mask: b.click_flag(), at: p, also: Some(state.down_pos) };
            match pick_topmost(cands, probe) {
                Some(k) => {
                    let c = cands[k];
                    let dbl = b == MouseButton::Left && c.flags.contains(
                        EventFlags::of(DOUBLE_CLICK),
                    ) && within_window(input.now, state.prev_down, input.double_click);
                    if dbl {
                        frame.action =
                        Some(Marker { node: c.node, flags: EventFlags::of(DOUBLE_CLICK) });
                        state.prev_down = None;
                        state.last_down = None;
                    } else {
                        frame.action = Some(Marker { node: c.node, flags: b.click_flag() });
                    }
                    caught = true;
                },
                None => {},
            }
            frame.click_outside = collect_outside(cands, p, None);
        },
        None => {},
    }
    let probe = Probe { mask: EventFlags::of(HOVER), at: p, also: None };
    match pick_topmost(cands, probe) {
        Some(h) => {
            let c = cands[h];
            frame.focus = Some(Marker { node: c.node, flags: EventFlags::of(HOVER) });
            state.focused = Some(c.node);
            caught = true;
        },
        None => {
            state.focused = None;
        },
    }
    state.caught = caught;
    frame
}

/// Runs one frame of the pointer state machine: updates `state` and returns
/// the markers of the frame, exactly as [`frame_outcome`] describes.
pub fn mouse_button_input(state: &mut CursorState, input: &PointerInput, cands: &Vec<Candidate>)
    -> (frame: CursorFrame)
    ensures
        *final(state) == frame_outcome(*old(state), *input, cands@).state,
        frame@ == frame_outcome(*old(state), *input, cands@).frame,
{
    state.caught = false;
    state.focused = None;
    if state.blocked {
        return CursorFrame::new();
    }
    match input.position {
        None => CursorFrame::new(),
        Some(p) => {
            state.cursor_pos = p;
            if state.dragging {
                run_drag_frame(state, input, cands, p)
            } else if input.left.pressed {
                run_press_frame(state, input, cands, p, MouseButton::Left)
            } else if input.right.pressed {
                run_press_frame(state, input, cands, p, MouseButton::Right)
            } else if input.middle.pressed {
                run_press_frame(state, input, cands, p, MouseButton::Middle)
            } else {
                run_idle_frame(state, input, cands, p)
            }
        },
    }
}

/// The node that a turn of the wheel goes to: the top-most node under the
/// pointer that takes the wheel; none while the state is blocked or the
/// pointer has no position.
pub open spec fn wheel_target(state: CursorState, position: Option<Vec2>, cands: Seq<Candidate>)
    -> Option<NodeId> {
    if state.blocked || position is None {
        None
    } else {
        topmost_node(
            cands,
            Probe { mask: EventFlags::of(MOUSE_WHEEL), at: position->0, also: None },
        )
    }
}

/// The node that a turn of the wheel goes to; see [`wheel_target`].
pub fn mouse_wheel_input(state: &CursorState, position: Option<Vec2>, cands: &Vec<Candidate>)
    -> (r: Option<NodeId>)
    ensures
        r == wheel_target(*state, position, cands@),
{
    if state.blocked {
        return None;
    }
    match position {
        Some(p) => pick_topmost_node(
            cands,
            Probe { mask: EventFlags::of(MOUSE_WHEEL), at: p, also: None },
        ),
        None => None,
    }
}

} // verus!
