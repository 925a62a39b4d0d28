//! The placeholder of an input field and what shows only beside text.

use vstd::prelude::*;
use crate::fixed::Fixed;
use crate::vec2::Vec2;
use crate::anim::interpolate::{Color, Interpolate, Offset, Scale, Visibility};
use crate::dsl::util::TextFragment;
use crate::events::cursor::NodeId;

verus! {

/// The text shown in an input field while it is empty.
#[derive(Debug, Clone, Copy, PartialEq, Eq, Structural)]
pub struct PlaceHolderText {
    /// The colour while the field is empty and idle.
    pub idle_color: Color,
    /// The colour once the field has text or the focus.
    pub active_color: Color,
    /// The node whose text decides.
    pub points_to: NodeId,
}

/// Marks a node that shows only while another node has text.
#[derive(Debug, Clone, Copy, PartialEq, Eq, Structural)]
pub struct DisplayIfHasText {
    /// The node whose text decides.
    pub points_to: NodeId,
}

/// Whether one of the strings is not empty.
pub open spec fn any_nonempty(sections: Seq<String>) -> bool {
    exists|i: int| 0 <= i < sections.len() && (#[trigger] sections[i])@.len() > 0
}

/// Whether a node has text: its fragment, if it has one, is not empty, or one
/// of its sections, if it has any, is not.
pub open spec fn spec_has_text(fragment: Option<TextFragment>, sections: Option<Seq<String>>)
    -> bool {
    ||| fragment is Some && fragment->0.text@.len() > 0
    ||| sections is Some && any_nonempty(sections->0)
}

/// Whether a node has text; see [`spec_has_text`].
pub fn has_text(fragment: Option<&TextFragment>, sections: Option<&Vec<String>>) -> (r: bool)
    ensures
        r == spec_has_text(
            match fragment {
                Some(f) => Some(*f),
                None => None,
            },
            match sections {
                Some(s) => Some(s@),
                None => None,
            },
        ),
{
    match fragment {
        Some(f) => {
            if !f.text.as_str().is_empty() {
                return true;
            }
        },
        None => {},
    }
    match sections {
        Some(s) => {
            let mut i: usize = 0;
            while i < s.len()
                invariant
                    i <= s.len(),
                    sections == Some(s),
                    fragment matches Some(f) ==> f.text@.len() == 0,
                    forall|j: int| 0 <= j < i ==> (#[trigger] s@[j])@.len() == 0,
                decreases s.len() - i,
            {
                if !s[i].as_str().is_empty() {
                    assert(s@[i as int]@.len() > 0);
                    return true;
                }
                i += 1;
            }
            false
        },
        None => false,
    }
}

/// Where a placeholder heads for. While the field shows text the placeholder
/// takes the active colour, moves up and shrinks; otherwise it takes the idle
/// colour and sits in the field at full size. Offsets are in multiples of
/// the font size.
pub open spec fn placeholder_targets(placeholder: PlaceHolderText, shows_text: bool) -> (
    Color,
    Vec2,
    Vec2,
) {
    if shows_text {
        (
            placeholder.active_color,
            Vec2 { x: Fixed { raw: 800_000 }, y: Fixed { raw: 700_000 } },
            Vec2 { x: Fixed { raw: 800_000 }, y: Fixed { raw: 800_000 } },
        )
    } else {
        (
            placeholder.idle_color,
            Vec2 { x: Fixed { raw: 800_000 }, y: Fixed { raw: 0 } },
            Vec2 { x: Fixed { raw: 1_000_000 }, y: Fixed { raw: 1_000_000 } },
        )
    }
}

/// Sends the placeholder of an input field on its way; see
/// [`placeholder_targets`]. `shows_text` tells whether the field is being
/// edited or the node that the placeholder points to has text.
pub fn text_placeholder(
    placeholder: &PlaceHolderText,
    shows_text: bool,
    color: &mut Interpolate<Color>,
    offset: &mut Interpolate<Offset>,
    scale: &mut Interpolate<Scale>,
)
    ensures
        final(color)@ == old(color)@.retargeted(placeholder_targets(*placeholder, shows_text).0),
        final(offset)@ == old(offset)@.retargeted(placeholder_targets(*placeholder, shows_text).1),
        final(scale)@ == old(scale)@.retargeted(placeholder_targets(*placeholder, shows_text).2),
        old(color)@.wf() ==> final(color)@.wf(),
        old(offset)@.wf() ==> final(offset)@.wf(),
        old(scale)@.wf() ==> final(scale)@.wf(),
{
    if shows_text {
        color.interpolate_to(placeholder.active_color);
        offset.interpolate_to(Vec2 { x: Fixed { raw: 800_000 }, y: Fixed { raw: 700_000 } });
        scale.interpolate_to(Vec2 { x: Fixed { raw: 800_000 }, y: Fixed { raw: 800_000 } });
    } else {
        color.interpolate_to(placeholder.idle_color);
        offset.interpolate_to(Vec2 { x: Fixed { raw: 800_000 }, y: Fixed { raw: 0 } });
        scale.interpolate_to(Vec2 { x: Fixed { raw: 1_000_000 }, y: Fixed { raw: 1_000_000 } });
    }
}

/// Whether a node that shows only beside text is drawn.
pub fn display_if_has_text(shows_text: bool) -> (r: Visibility)
    ensures
        r == if shows_text {
            Visibility::Inherited
        } else {
            Visibility::Hidden
        },
{
    if shows_text {
        Visibility::Inherited
    } else {
        Visibility::Hidden
    }
}

} // verus!
