//! What holds of the pointer state machine over whole frames and runs.

use vstd::prelude::*;
use crate::fixed::Fixed;
use crate::vec2::Vec2;
use crate::events::flags::{EventFlags, HOVER, LEFT_DRAG, LEFT_CLICK, DOUBLE_CLICK, DRAG_END};
use crate::events::cursor::{ButtonState, Candidate, CursorState, Marker, MouseButton, NodeId,
    PointerInput, Probe, frame_outcome, lemma_topmost, outside, spec_within_window, topmost};

verus! {

/// Nothing is carried over from the markers of the frame before: two states
/// that differ only in the focus and in whether the pointer was caught lead
/// to the same state and the same markers.
pub proof fn lemma_no_stale_focus(
    state: CursorState,
    focused: Option<NodeId>,
    caught: bool,
    input: PointerInput,
    cands: Seq<Candidate>,
)
    ensures
        frame_outcome(CursorState { focused, caught, ..state }, input, cands) == frame_outcome(
            state,
            input,
            cands,
        ),
{
}

/// While the state is blocked no marker is handed out, the focus is cleared,
/// and what lasts of the state stays as it is.
pub proof fn lemma_blocked_is_silent(state: CursorState, input: PointerInput, cands: Seq<Candidate>)
    requires
        state.blocked,
    ensures
        ({
            let out = frame_outcome(state, input, cands);
            &&& out.frame == crate::events::cursor::FrameModel::empty()
            &&& out.state == (CursorState { focused: None, caught: false, ..state })
        }),
{
}

/// A button that nothing happens to.
pub open spec fn button_idle() -> ButtonState {
    ButtonState { pressed: false, just_pressed: false, just_released: false }
}

/// The input of a frame in which the left button goes down at `p`.
pub open spec fn left_press_at(p: Vec2, now: Fixed, window: Fixed) -> PointerInput {
    PointerInput {
        position: Some(p),
        left: ButtonState { pressed: true, just_pressed: true, just_released: false },
        right: button_idle(),
        middle: button_idle(),
        now,
        double_click: window,
        target_alive: true,
    }
}

/// The input of a frame in which the left button comes up at `p`.
pub open spec fn left_release_at(p: Vec2, now: Fixed, window: Fixed) -> PointerInput {
    PointerInput {
        position: Some(p),
        left: ButtonState { pressed: false, just_pressed: false, just_released: true },
        right: button_idle(),
        middle: button_idle(),
        now,
        double_click: window,
        target_alive: true,
    }
}

/// Whether the frame is one in which the pointer only rests: the state is
/// neither blocked nor dragging, the pointer has a position and no button is
/// held.
pub open spec fn resting(state: CursorState, input: PointerInput) -> bool {
    &&& !state.blocked
    &&& !state.dragging
    &&& input.position is Some
    &&& !input.left.pressed
    &&& !input.right.pressed
    &&& !input.middle.pressed
}

/// The probe for nodes that take hovering at `p`.
pub open spec fn hover_probe(p: Vec2) -> Probe {
    Probe { mask: EventFlags::of(HOVER), at: p, also: None }
}

/// No two candidates stand for the same node.
pub open spec fn distinct_nodes(cands: Seq<Candidate>) -> bool {
    forall|i: int, j: int|
        0 <= i < cands.len() && 0 <= j < cands.len() && i != j ==> (#[trigger] cands[i]).node != (
        #[trigger] cands[j]).node
}

/// Of two overlapping nodes that take hovering, the one of greater depth gets
/// the focus, in whichever order the two are listed.
pub proof fn lemma_hover_prefers_higher(
    state: CursorState,
    input: PointerInput,
    high: Candidate,
    low: Candidate,
)
    requires
        resting(state, input),
        high.answers(hover_probe(input.position->0)),
        low.answers(hover_probe(input.position->0)),
        high.rect.z@ > low.rect.z@,
    ensures
        frame_outcome(state, input, seq![high, low]).frame.focus == Some(
            Marker { node: high.node, flags: EventFlags::of(HOVER) },
        ),
        frame_outcome(state, input, seq![low, high]).frame.focus == Some(
            Marker { node: high.node, flags: EventFlags::of(HOVER) },
        ),
        frame_outcome(state, input, seq![high, low]).state.focused == Some(high.node),
        frame_outcome(state, input, seq![low, high]).state.focused == Some(high.node),
{
    let probe = hover_probe(input.position->0);
    let a = seq![high, low];
    let b = seq![low, high];
    lemma_topmost(a, probe, 2);
    lemma_topmost(b, probe, 2);
    assert(a[0] == high && a[1] == low);
    assert(b[0] == low && b[1] == high);
    assert(a[0].answers(probe) && a[1].answers(probe));
    assert(b[0].answers(probe) && b[1].answers(probe));
    assert(topmost(a, probe, 2) == Some(0int));
    assert(topmost(b, probe, 2) == Some(1int));
}

/// Whatever the candidates and their order, the focus of a resting frame is
/// on a node that takes hovering under the pointer, and no such node lies
/// above it; there is no focus exactly when no node takes hovering there.
pub proof fn lemma_hover_is_topmost(state: CursorState, input: PointerInput, cands: Seq<Candidate>)
    requires
        resting(state, input),
    ensures
        ({
            let out = frame_outcome(state, input, cands);
            let probe = hover_probe(input.position->0);
            match out.frame.focus {
                Some(m) => exists|k: int|
                    {
                        &&& 0 <= k < cands.len()
                        &&& (#[trigger] cands[k]).node == m.node
                        &&& cands[k].answers(probe)
                        &&& m.flags == EventFlags::of(HOVER)
                        &&& out.state.focused == Some(m.node)
                        &&& forall|i: int|
                            0 <= i < cands.len() && (#[trigger] cands[i]).answers(probe)
                                ==> cands[i].rect.z@ <= cands[k].rect.z@
                    },
                None => out.state.focused is None && forall|i: int|
                    0 <= i < cands.len() ==> !(#[trigger] cands[i]).answers(probe),
            }
        }),
{
    let probe = hover_probe(input.position->0);
    lemma_topmost(cands, probe, cands.len() as int);
}

/// While a drag is under way and its button is held, the dragged node keeps
/// the focus and stays the drag target, wherever the pointer is and whatever
/// lies under it.
pub proof fn lemma_drag_sticks(
    state: CursorState,
    input: PointerInput,
    cands: Seq<Candidate>,
    target: NodeId,
)
    requires
        !state.blocked,
        state.dragging,
        state.drag_target == Some(target),
        input.target_alive,
        input.position is Some,
        input.button(state.drag_button).pressed,
    ensures
        ({
            let out = frame_outcome(state, input, cands);
            &&& out.state.dragging
            &&& out.state.drag_target == Some(target)
            &&& out.state.drag_button == state.drag_button
            &&& out.state.focused == Some(target)
            &&& out.frame.focus == Some(
                Marker { node: target, flags: state.drag_button.drag_flag() },
            )
            &&& out.frame.dropped is None
            &&& out.frame.click_outside.len() == 0
        }),
{
}

/// A left press over a node that takes left drags, and is the top-most node
/// there that takes left drags or clicks, makes that node the drag target at
/// once.
pub proof fn lemma_press_starts_drag(
    state: CursorState,
    input: PointerInput,
    cands: Seq<Candidate>,
    k: int,
)
    requires
        !state.blocked,
        !state.dragging,
        input.position is Some,
        input.left.pressed,
        input.left.just_pressed,
        topmost(
            cands,
            Probe {
                mask: MouseButton::Left.drag_flag().union(MouseButton::Left.click_flag()),
                at: input.position->0,
                also: None,
            },
            cands.len() as int,
        ) == Some(k),
        cands[k].flags.contains(EventFlags::of(LEFT_DRAG)),
    ensures
        ({
            let out = frame_outcome(state, input, cands);
            &&& out.state.dragging
            &&& out.state.drag_target == Some(cands[k].node)
            &&& out.state.drag_button == MouseButton::Left
            &&& out.state.focused == Some(cands[k].node)
            &&& out.frame.focus == Some(
                Marker { node: cands[k].node, flags: EventFlags::of(LEFT_DRAG) },
            )
        }),
{
}

/// The nodes that [`outside`] lists are exactly the nodes of the candidates
/// that the release misses.
pub proof fn lemma_outside_members(
    cands: Seq<Candidate>,
    at: Vec2,
    except: Option<NodeId>,
    n: int,
)
    requires
        0 <= n <= cands.len(),
    ensures
        forall|node: NodeId|
            outside(cands, at, except, n).contains(node) <==> exists|i: int|
                0 <= i < n && (#[trigger] cands[i]).misses(at, except) && cands[i].node == node,
    decreases n,
{
    if n > 0 {
        lemma_outside_members(cands, at, except, n - 1);
        let rest = outside(cands, at, except, n - 1);
        let c = cands[n - 1];
        assert forall|node: NodeId|
            outside(cands, at, except, n).contains(node) <==> exists|i: int|
                0 <= i < n && (#[trigger] cands[i]).misses(at, except) && cands[i].node
                    == node by {
            if c.misses(at, except) {
                let full = rest.push(c.node);
                assert(full[full.len() - 1] == c.node);
                if full.contains(node) {
                    let j = choose|j: int| 0 <= j < full.len() && full[j] == node;
                    if j < rest.len() {
                        assert(rest[j] == node);
                        assert(rest.contains(node));
                    } else {
                        assert(cands[n - 1].misses(at, except) && cands[n - 1].node == node);
                    }
                }
                if exists|i: int|
                    0 <= i < n && (#[trigger] cands[i]).misses(at, except) && cands[i].node
                        == node {
                    let i = choose|i: int|
                        0 <= i < n && (#[trigger] cands[i]).misses(at, except) && cands[i].node
                            == node;
                    if i < n - 1 {
                        assert(rest.contains(node));
                        let j = choose|j: int| 0 <= j < rest.len() && rest[j] == node;
                        assert(full[j] == node);
                    } else {
                        assert(full[full.len() - 1] == node);
                    }
                }
            } else {
                if exists|i: int|
                    0 <= i < n && (#[trigger] cands[i]).misses(at, except) && cands[i].node
                        == node {
                    let i = choose|i: int|
                        0 <= i < n && (#[trigger] cands[i]).misses(at, except) && cands[i].node
                            == node;
                    assert(i < n - 1);
                }
            }
        }
    } else {
        assert(outside(cands, at, except, n) =~= Seq::<NodeId>::empty());
    }
}

/// The node whose drag ends in a frame is never marked as clicked outside of
/// in that frame.
pub proof fn lemma_dragged_not_outside(
    state: CursorState,
    input: PointerInput,
    cands: Seq<Candidate>,
    target: NodeId,
)
    requires
        !state.blocked,
        state.dragging,
        state.drag_target == Some(target),
        input.target_alive,
        input.position is Some,
    ensures
        !frame_outcome(state, input, cands).frame.is_outside(target),
{
    let p = input.position->0;
    lemma_outside_members(cands, p, Some(target), cands.len() as int);
    if input.button(state.drag_button).pressed {
        assert(frame_outcome(state, input, cands).frame.click_outside =~= Seq::<NodeId>::empty());
    }
}

/// The node that is clicked in a frame is never marked as clicked outside of
/// in that frame, provided that every node is listed once.
pub proof fn lemma_clicked_not_outside(
    state: CursorState,
    input: PointerInput,
    cands: Seq<Candidate>,
)
    requires
        resting(state, input),
        distinct_nodes(cands),
    ensures
        ({
            let out = frame_outcome(state, input, cands);
            out.frame.action matches Some(m) ==> !out.frame.is_outside(m.node)
        }),
{
    let out = frame_outcome(state, input, cands);
    let p = input.position->0;
    let n = cands.len() as int;
    if out.frame.action is Some {
        let b = input.released()->0;
        let probe = Probe { mask: b.click_flag(), at: p, also: Some(state.down_pos) };
        lemma_topmost(cands, probe, n);
        let k = topmost(cands, probe, n)->0;
        lemma_outside_members(cands, p, None, n);
        let node = cands[k].node;
        assert(out.frame.action->0.node == node);
        if out.frame.click_outside.contains(node) {
            let i = choose|i: int|
                0 <= i < n && (#[trigger] cands[i]).misses(p, None) && cands[i].node == node;
            assert(i == k);
            assert(cands[k].spec_hit(p));
        }
    }
}

/// Two left clicks on one node that takes clicks and double clicks, starting
/// with no press on record. The first release is a plain click. The second is
/// a double click exactly when it comes within the window of the first press,
/// and a plain click otherwise.
///
/// The node is the top-most one that takes left clicks at `p`, and no node
/// that would take the press takes left drags.
pub proof fn lemma_double_click_window(
    state: CursorState,
    cands: Seq<Candidate>,
    k: int,
    p: Vec2,
    first_press: Fixed,
    first_release: Fixed,
    second_press: Fixed,
    second_release: Fixed,
    window: Fixed,
)
    requires
        !state.blocked,
        !state.dragging,
        state.prev_down is None,
        state.last_down is None,
        topmost(
            cands,
            Probe { mask: EventFlags::of(LEFT_CLICK), at: p, also: Some(p) },
            cands.len() as int,
        ) == Some(k),
        cands[k].flags.contains(EventFlags::of(DOUBLE_CLICK)),
        forall|i: int|
            0 <= i < cands.len() ==> !(#[trigger] cands[i]).flags.contains(
                EventFlags::of(LEFT_DRAG),
            ),
    ensures
        ({
            let o1 = frame_outcome(state, left_press_at(p, first_press, window), cands);
            let o2 = frame_outcome(o1.state, left_release_at(p, first_release, window), cands);
            let o3 = frame_outcome(o2.state, left_press_at(p, second_press, window), cands);
            let o4 = frame_outcome(o3.state, left_release_at(p, second_release, window), cands);
            let node = cands[k].node;
            &&& o2.frame.action == Some(Marker { node, flags: EventFlags::of(LEFT_CLICK) })
            &&& second_release.minus(first_press)@ <= window@ ==> o4.frame.action == Some(
                Marker { node, flags: EventFlags::of(DOUBLE_CLICK) },
            )
            &&& second_release.minus(first_press)@ > window@ ==> o4.frame.action == Some(
                Marker { node, flags: EventFlags::of(LEFT_CLICK) },
            )
        }),
{
    let n = cands.len() as int;
    let press_probe = Probe {
        mask: MouseButton::Left.drag_flag().union(MouseButton::Left.click_flag()),
        at: p,
        also: None,
    };
    lemma_topmost(cands, press_probe, n);
    lemma_topmost(cands, Probe { mask: EventFlags::of(LEFT_CLICK), at: p, also: Some(p) }, n);
    let o1 = frame_outcome(state, left_press_at(p, first_press, window), cands);
    assert(!o1.state.dragging);
    assert(o1.state.down_pos == p);
    assert(o1.state.prev_down is None && o1.state.last_down == Some(first_press));
    let o2 = frame_outcome(o1.state, left_release_at(p, first_release, window), cands);
    assert(!spec_within_window(first_release, o1.state.prev_down, window));
    assert(o2.state.down_pos == p);
    assert(o2.state.prev_down is None && o2.state.last_down == Some(first_press));
    assert(!o2.state.dragging && !o2.state.blocked);
    let o3 = frame_outcome(o2.state, left_press_at(p, second_press, window), cands);
    assert(!o3.state.dragging && !o3.state.blocked);
    assert(o3.state.down_pos == p);
    assert(o3.state.prev_down == Some(first_press));
}

/// A drag with the left button on a node that takes double clicks ends in a
/// double click exactly when the button comes up within the window of the
/// press before the last, and in a plain end of the drag otherwise.
pub proof fn lemma_drag_release(
    state: CursorState,
    input: PointerInput,
    cands: Seq<Candidate>,
    target: NodeId,
)
    requires
        !state.blocked,
        state.dragging,
        state.drag_target == Some(target),
        input.target_alive,
        input.position is Some,
        !input.button(state.drag_button).pressed,
    ensures
        ({
            let out = frame_outcome(state, input, cands);
            let dbl = state.drag_dbl_click && spec_within_window(
                input.now,
                state.prev_down,
                input.double_click,
            );
            &&& !out.state.dragging
            &&& out.state.drag_target is None
            &&& out.frame.action == Some(
                Marker {
                    node: target,
                    flags: if dbl {
                        EventFlags::of(DOUBLE_CLICK)
                    } else {
                        EventFlags::of(DRAG_END)
                    },
                },
            )
            &&& dbl ==> out.state.prev_down is None && out.state.last_down is None
        }),
{
}

} // verus!
