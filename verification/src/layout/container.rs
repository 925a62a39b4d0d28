//! The layout of a container as a whole.

use vstd::prelude::*;
use crate::fixed::Fixed;
use crate::vec2::Vec2;
use crate::layout::{Container, CrossAlign, Layout, LayoutDir, LayoutItem, Overflow, Placed,
    outset, spec_outset};
use crate::layout::select::{participants, select};
use crate::layout::stack::{LayoutOutput, Line, arrange_line, is_line, lemma_line_places,
    line_placed, line_places, line_size};
use crate::layout::paragraph::{Para, arrange_paragraph, is_paragraph, lemma_is_paragraph,
    paragraph_placed, paragraph_size};

verus! {

/// What a layout gives, as mathematical values.
pub struct LayoutModel {
    /// The children placed, in order.
    pub placed: Seq<Placed>,
    /// Width and height of the layout.
    pub size: Vec2,
}

impl Container {
    /// The direction in which the container places its children.
    pub open spec fn spec_direction(self) -> LayoutDir {
        match self.layout {
            Layout::Stack { direction, align } => direction,
            Layout::Span { direction, align, overflow } => direction,
            Layout::Paragraph { direction } => direction,
            Layout::Padding => LayoutDir::LeftToRight,
        }
    }

    /// The direction in which the container places its children; a padding
    /// counts from left to right.
    #[verifier::when_used_as_spec(spec_direction)]
    pub fn direction(self) -> (r: LayoutDir)
        ensures
            r == self.spec_direction(),
    {
        match self.layout {
            Layout::Stack { direction, align } => direction,
            Layout::Span { direction, align, overflow } => direction,
            Layout::Paragraph { direction } => direction,
            Layout::Padding => LayoutDir::LeftToRight,
        }
    }

    /// What the container makes of the children `items` in the room
    /// `available`; see [`Container::places`].
    pub open spec fn layout_of(self, available: Vec2, items: Seq<LayoutItem>) -> LayoutModel {
        let picks = participants(items, self.range, items.len() as int);
        match self.layout {
            Layout::Stack { direction, align } => {
                let line = self.spec_line(direction, align, None);
                LayoutModel {
                    placed: line_placed(items, picks, line),
                    size: line_size(items, picks, line),
                }
            },
            Layout::Span { direction, align, overflow } => {
                let limit = if overflow is Clip {
                    Some(direction.spec_main_of(available))
                } else {
                    None
                };
                LayoutModel {
                    placed: line_placed(items, picks, self.spec_line(direction, align, limit)),
                    size: available,
                }
            },
            Layout::Paragraph { direction } => {
                let para = self.spec_para(direction, available);
                LayoutModel {
                    placed: paragraph_placed(items, picks, para),
                    size: paragraph_size(items, picks, para),
                }
            },
            Layout::Padding => if picks.len() == 0 {
                LayoutModel { placed: Seq::empty(), size: spec_outset(Vec2::zero(), self.padding) }
            } else {
                LayoutModel {
                    placed: seq![
                        Placed { index: picks[0], main: self.padding.x, cross: self.padding.y },
                    ],
                    size: spec_outset(items[picks[0] as int].size, self.padding),
                }
            },
        }
    }

    /// The settings of the line of a stack or a span in `direction`.
    pub open spec fn spec_line(
        self,
        direction: LayoutDir,
        align: CrossAlign,
        limit: Option<Fixed>,
    ) -> Line {
        Line {
            direction,
            align,
            margin: direction.spec_main_of(self.margin),
            padding: direction.spec_main_of(self.padding),
            cross_padding: direction.spec_cross_of(self.padding),
            limit,
        }
    }

    /// The settings of the line of a stack or a span in `direction`.
    #[verifier::when_used_as_spec(spec_line)]
    pub fn line(self, direction: LayoutDir, align: CrossAlign, limit: Option<Fixed>) -> (r: Line)
        ensures
            r == self.spec_line(direction, align, limit),
    {
        Line {
            direction,
            align,
            margin: direction.main_of(self.margin),
            padding: direction.main_of(self.padding),
            cross_padding: direction.cross_of(self.padding),
            limit,
        }
    }

    /// The settings of a paragraph in `direction` in a container of the size
    /// `available`.
    pub open spec fn spec_para(self, direction: LayoutDir, available: Vec2) -> Para {
        Para {
            direction,
            margin: direction.spec_main_of(self.margin),
            line_gap: direction.spec_cross_of(self.margin),
            padding: direction.spec_main_of(self.padding),
            cross_padding: direction.spec_cross_of(self.padding),
            width: direction.spec_main_of(available),
        }
    }

    /// The settings of a paragraph in `direction` in a container of the size
    /// `available`.
    #[verifier::when_used_as_spec(spec_para)]
    pub fn para(self, direction: LayoutDir, available: Vec2) -> (r: Para)
        ensures
            r == self.spec_para(direction, available),
    {
        Para {
            direction,
            margin: direction.main_of(self.margin),
            line_gap: direction.cross_of(self.margin),
            padding: direction.main_of(self.padding),
            cross_padding: direction.cross_of(self.padding),
            width: direction.main_of(available),
        }
    }

    /// Whether `placed` and `size` are what the container makes of the
    /// children `items` in the room `available`.
    ///
    /// Only the children that take part are placed. A stack lines them up
    /// and is as large as they need. A span lines them up in the room given,
    /// leaving out what does not fit if it clips. A paragraph breaks them
    /// into lines as wide as the room. A padding sets the first child in by
    /// the padding and is that much larger than the child.
    pub open spec fn places(
        self,
        available: Vec2,
        items: Seq<LayoutItem>,
        placed: Seq<Placed>,
        size: Vec2,
    ) -> bool {
        let picks = participants(items, self.range, items.len() as int);
        match self.layout {
            Layout::Stack { direction, align } => is_line(
                items,
                picks,
                self.spec_line(direction, align, None),
                placed,
                size,
            ),
            Layout::Span { direction, align, overflow } => {
                let limit = if overflow is Clip {
                    Some(direction.spec_main_of(available))
                } else {
                    None
                };
                &&& size == available
                &&& line_places(items, picks, self.spec_line(direction, align, limit), placed)
            },
            Layout::Paragraph { direction } => is_paragraph(
                items,
                picks,
                self.spec_para(direction, available),
                placed,
                size,
            ),
            Layout::Padding => if picks.len() == 0 {
                placed.len() == 0 && size == spec_outset(Vec2::zero(), self.padding)
            } else {
                &&& placed.len() == 1
                &&& placed[0] == (Placed {
                    index: picks[0],
                    main: self.padding.x,
                    cross: self.padding.y,
                })
                &&& size == spec_outset(items[picks[0] as int].size, self.padding)
            },
        }
    }

    /// Places the children `items` in the room `available`; see
    /// [`Container::places`].
    pub fn place(&self, available: Vec2, items: &Vec<LayoutItem>) -> (out: LayoutOutput)
        ensures
            self.places(available, items@, out.placed@, out.size),
            out.placed@ == self.layout_of(available, items@).placed,
            out.size == self.layout_of(available, items@).size,
    {
        let out = self.place_children(available, items);
        proof {
            let picks = participants(items@, self.range, items@.len() as int);
            match self.layout {
                Layout::Stack { direction, align } => {
                    lemma_line_places(
                        items@,
                        picks,
                        self.spec_line(direction, align, None),
                        out.placed@,
                    );
                },
                Layout::Span { direction, align, overflow } => {
                    let limit = if overflow is Clip {
                        Some(direction.spec_main_of(available))
                    } else {
                        None
                    };
                    lemma_line_places(
                        items@,
                        picks,
                        self.spec_line(direction, align, limit),
                        out.placed@,
                    );
                },
                Layout::Paragraph { direction } => {
                    lemma_is_paragraph(
                        items@,
                        picks,
                        self.spec_para(direction, available),
                        out.placed@,
                        out.size,
                    );
                },
                Layout::Padding => {
                    assert(out.placed@ =~= self.layout_of(available, items@).placed);
                },
            }
        }
        out
    }

    fn place_children(&self, available: Vec2, items: &Vec<LayoutItem>) -> (out: LayoutOutput)
        ensures
            self.places(available, items@, out.placed@, out.size),
    {
        let picks = select(items, self.range);
        match self.layout {
            Layout::Stack { direction, align } => {
                arrange_line(items, &picks, self.line(direction, align, None))
            },
            Layout::Span { direction, align, overflow } => {
                let limit = match overflow {
                    Overflow::Clip => Some(direction.main_of(available)),
                    Overflow::Visible => None,
                };
                let line = arrange_line(items, &picks, self.line(direction, align, limit));
                LayoutOutput { placed: line.placed, size: available }
            },
            Layout::Paragraph { direction } => {
                arrange_paragraph(items, &picks, self.para(direction, available))
            },
            Layout::Padding => {
                let mut placed: Vec<Placed> = Vec::new();
                if picks.len() == 0 {
                    LayoutOutput { placed, size: outset(Vec2::zero(), self.padding) }
                } else {
                    let index = picks[0];
                    placed.push(Placed { index, main: self.padding.x, cross: self.padding.y });
                    LayoutOutput { placed, size: outset(items[index].size, self.padding) }
                }
            },
        }
    }
}

} // verus!
