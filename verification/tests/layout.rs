use rectray::fixed::Fixed;
use rectray::layout::paragraph::{arrange_paragraph, Para};
use rectray::layout::select::select;
use rectray::layout::stack::{arrange_line, cross_offset, Line};
use rectray::layout::{center_of, inset, outset, Container, CrossAlign, Layout, LayoutControl,
    LayoutDir, LayoutItem, LayoutRange, Overflow, Placed};
use rectray::vec2::Vec2;

fn layout_item(w: i32, h: i32) -> LayoutItem {
    LayoutItem { size: Vec2::from_ints(w, h), control: LayoutControl::Normal }
}

fn layout_three() -> Vec<LayoutItem> {
    vec![layout_item(10, 5), layout_item(20, 8), layout_item(30, 2)]
}

fn layout_container(layout: Layout) -> Container {
    Container { layout, margin: Vec2::zero(), padding: Vec2::zero(), range: LayoutRange::all() }
}

fn layout_placed(index: usize, main: i64, cross: i64) -> Placed {
    Placed { index, main: Fixed::from_raw(main * 1000), cross: Fixed::from_raw(cross * 1000) }
}

#[test]
fn stack_packs_children_end_to_end() {
    let stack = layout_container(Layout::Stack { direction: LayoutDir::LeftToRight, align: CrossAlign::Start });
    let out = stack.place(Vec2::from_ints(500, 500), &layout_three());
    assert_eq!(out.placed, vec![layout_placed(0, 0, 0), layout_placed(1, 10_000, 0), layout_placed(2, 30_000, 0)]);
    assert_eq!(out.size, Vec2::from_ints(60, 8));
}

#[test]
fn stack_adds_margin_between_and_padding_around() {
    let mut stack = layout_container(Layout::Stack { direction: LayoutDir::LeftToRight, align: CrossAlign::Start });
    stack.margin = Vec2::from_ints(2, 0);
    stack.padding = Vec2::from_ints(1, 3);
    let out = stack.place(Vec2::zero(), &layout_three());
    assert_eq!(out.placed, vec![layout_placed(0, 1_000, 3_000), layout_placed(1, 13_000, 3_000), layout_placed(2, 35_000, 3_000)]);
    assert_eq!(out.size, Vec2::from_ints(66, 14));
}

#[test]
fn stack_aligns_children_across() {
    let middle = layout_container(Layout::Stack { direction: LayoutDir::LeftToRight, align: CrossAlign::Middle });
    let out = middle.place(Vec2::zero(), &layout_three());
    assert_eq!(out.placed, vec![layout_placed(0, 0, 1_500), layout_placed(1, 10_000, 0), layout_placed(2, 30_000, 3_000)]);
    let end = layout_container(Layout::Stack { direction: LayoutDir::LeftToRight, align: CrossAlign::End });
    let out = end.place(Vec2::zero(), &layout_three());
    assert_eq!(out.placed, vec![layout_placed(0, 0, 3_000), layout_placed(1, 10_000, 0), layout_placed(2, 30_000, 6_000)]);
    assert_eq!(cross_offset(CrossAlign::Middle, Fixed::from_int(8), Fixed::from_int(5)), Fixed::from_raw(1_500_000));
}

#[test]
fn vertical_stack_runs_along_the_height() {
    let stack = layout_container(Layout::Stack { direction: LayoutDir::TopToBottom, align: CrossAlign::Start });
    let out = stack.place(Vec2::zero(), &layout_three());
    assert_eq!(out.placed, vec![layout_placed(0, 0, 0), layout_placed(1, 5_000, 0), layout_placed(2, 13_000, 0)]);
    assert_eq!(out.size, Vec2::from_ints(30, 15));
}

#[test]
fn zero_size_child_keeps_its_place_in_the_order() {
    let stack = layout_container(Layout::Stack { direction: LayoutDir::LeftToRight, align: CrossAlign::Start });
    let out = stack.place(Vec2::zero(), &vec![layout_item(10, 1), layout_item(0, 0), layout_item(30, 1)]);
    assert_eq!(out.placed, vec![layout_placed(0, 0, 0), layout_placed(1, 10_000, 0), layout_placed(2, 10_000, 0)]);
    assert_eq!(out.size, Vec2::from_ints(40, 1));
}

#[test]
fn empty_stack_is_as_large_as_its_padding() {
    let mut stack = layout_container(Layout::Stack { direction: LayoutDir::LeftToRight, align: CrossAlign::Start });
    stack.padding = Vec2::from_ints(2, 3);
    let out = stack.place(Vec2::zero(), &vec![]);
    assert!(out.placed.is_empty());
    assert_eq!(out.size, Vec2::from_ints(4, 6));
}

#[test]
fn span_keeps_the_size_it_is_given() {
    let visible = layout_container(Layout::Span { direction: LayoutDir::LeftToRight, align: CrossAlign::Start, overflow: Overflow::Visible });
    let out = visible.place(Vec2::from_ints(35, 100), &layout_three());
    assert_eq!(out.placed.len(), 3);
    assert_eq!(out.placed[2], layout_placed(2, 30_000, 0));
    assert_eq!(out.size, Vec2::from_ints(35, 100));
}

#[test]
fn clipping_span_leaves_out_what_does_not_fit() {
    let clip = layout_container(Layout::Span { direction: LayoutDir::LeftToRight, align: CrossAlign::Start, overflow: Overflow::Clip });
    let out = clip.place(Vec2::from_ints(35, 100), &layout_three());
    assert_eq!(out.placed, vec![layout_placed(0, 0, 0), layout_placed(1, 10_000, 0)]);
    assert_eq!(out.size, Vec2::from_ints(35, 100));
    let exact = clip.place(Vec2::from_ints(60, 100), &layout_three());
    assert_eq!(exact.placed.len(), 3);
    let tight = clip.place(Vec2::from_ints(5, 100), &vec![layout_item(10, 1), layout_item(1, 1)]);
    assert!(tight.placed.is_empty());
}

#[test]
fn range_and_opt_out_decide_who_takes_part() {
    let mut ignored = layout_item(99, 99);
    ignored.control = LayoutControl::IgnoreLayout;
    let items = vec![layout_item(10, 5), ignored, layout_item(20, 8), layout_item(30, 2)];
    assert_eq!(select(&items, LayoutRange::all()), vec![0, 2, 3]);
    assert_eq!(select(&items, LayoutRange { start: 1, count: 1 }), vec![2]);
    assert_eq!(select(&items, LayoutRange { start: 1, count: 5 }), vec![2, 3]);
    assert_eq!(select(&items, LayoutRange { start: 3, count: 5 }), Vec::<usize>::new());
    assert_eq!(select(&items, LayoutRange { start: 0, count: 0 }), Vec::<usize>::new());
    let mut stack = layout_container(Layout::Stack { direction: LayoutDir::LeftToRight, align: CrossAlign::Start });
    stack.range = LayoutRange { start: 1, count: 2 };
    let out = stack.place(Vec2::zero(), &items);
    assert_eq!(out.placed, vec![layout_placed(2, 0, 0), layout_placed(3, 20_000, 0)]);
    assert_eq!(out.size, Vec2::from_ints(50, 8));
}

#[test]
fn paragraph_wraps_and_breaks_lines() {
    let mut line_break = layout_item(0, 6);
    line_break.control = LayoutControl::Linebreak;
    let items = vec![layout_item(20, 5), layout_item(20, 7), layout_item(20, 4), line_break, layout_item(10, 2)];
    let mut paragraph = layout_container(Layout::Paragraph { direction: LayoutDir::LeftToRight });
    paragraph.margin = Vec2::from_ints(2, 3);
    let out = paragraph.place(Vec2::from_ints(50, 500), &items);
    assert_eq!(
        out.placed,
        vec![
            layout_placed(0, 0, 0),
            layout_placed(1, 22_000, 0),
            layout_placed(2, 0, 10_000),
            layout_placed(3, 22_000, 10_000),
            layout_placed(4, 0, 19_000),
        ]
    );
    assert_eq!(out.size, Vec2::from_ints(50, 21));
}

#[test]
fn child_wider_than_the_paragraph_gets_its_own_line() {
    let para = Para {
        direction: LayoutDir::LeftToRight,
        margin: Fixed::zero(),
        line_gap: Fixed::zero(),
        padding: Fixed::from_int(1),
        cross_padding: Fixed::from_int(2),
        width: Fixed::from_int(20),
    };
    let items = vec![layout_item(50, 5), layout_item(5, 3), layout_item(13, 3), layout_item(1, 1)];
    let out = arrange_paragraph(&items, &vec![0, 1, 2, 3], para);
    assert_eq!(
        out.placed,
        vec![
            layout_placed(0, 1_000, 2_000),
            layout_placed(1, 1_000, 7_000),
            layout_placed(2, 6_000, 7_000),
            layout_placed(3, 1_000, 10_000),
        ]
    );
    assert_eq!(out.size, Vec2::from_ints(20, 13));
}

#[test]
fn padding_layout_sets_one_child_in() {
    let mut padding = layout_container(Layout::Padding);
    padding.padding = Vec2::from_ints(3, 4);
    let out = padding.place(Vec2::zero(), &vec![layout_item(10, 20), layout_item(1, 1)]);
    assert_eq!(out.placed, vec![layout_placed(0, 3_000, 4_000)]);
    assert_eq!(out.size, Vec2::from_ints(16, 28));
    let empty = padding.place(Vec2::zero(), &vec![]);
    assert!(empty.placed.is_empty());
    assert_eq!(empty.size, Vec2::from_ints(6, 8));
    assert_eq!(inset(Vec2::from_ints(100, 50), Vec2::from_ints(5, 10)), Vec2::from_ints(90, 30));
    assert_eq!(outset(Vec2::from_ints(10, 20), Vec2::from_ints(3, 4)), Vec2::from_ints(16, 28));
}

#[test]
fn placements_map_back_into_the_plane() {
    let extent = Vec2::from_ints(60, 8);
    let first = center_of(LayoutDir::LeftToRight, extent, Fixed::zero(), Fixed::zero(), Vec2::from_ints(10, 5));
    assert_eq!(first, Vec2::new(Fixed::from_int(-25), Fixed::from_raw(1_500_000)));
    let second = center_of(LayoutDir::LeftToRight, extent, Fixed::from_int(10), Fixed::zero(), Vec2::from_ints(20, 8));
    assert_eq!(second, Vec2::from_ints(-10, 0));
    let mirrored = center_of(LayoutDir::RightToLeft, extent, Fixed::from_int(10), Fixed::zero(), Vec2::from_ints(20, 8));
    assert_eq!(mirrored, Vec2::from_ints(10, 0));
    let down = center_of(LayoutDir::TopToBottom, Vec2::from_ints(30, 15), Fixed::from_int(5), Fixed::zero(), Vec2::from_ints(20, 8));
    assert_eq!(down, Vec2::new(Fixed::from_int(-5), Fixed::from_raw(-1_500_000)));
    let up = center_of(LayoutDir::BottomToTop, Vec2::from_ints(30, 15), Fixed::from_int(5), Fixed::zero(), Vec2::from_ints(20, 8));
    assert_eq!(up, Vec2::new(Fixed::from_int(-5), Fixed::from_raw(1_500_000)));
}

#[test]
fn line_settings_come_from_the_container() {
    let mut container = layout_container(Layout::Padding);
    container.margin = Vec2::from_ints(1, 2);
    container.padding = Vec2::from_ints(3, 4);
    let line = container.line(LayoutDir::TopToBottom, CrossAlign::End, None);
    assert_eq!(
        line,
        Line {
            direction: LayoutDir::TopToBottom,
            align: CrossAlign::End,
            margin: Fixed::from_int(2),
            padding: Fixed::from_int(4),
            cross_padding: Fixed::from_int(3),
            limit: None,
        }
    );
    let out = arrange_line(&layout_three(), &vec![2, 0], line);
    assert_eq!(out.placed, vec![layout_placed(2, 4_000, 3_000), layout_placed(0, 8_000, 23_000)]);
    assert_eq!(out.size, Vec2::from_ints(36, 17));
    assert!(LayoutDir::LeftToRight.is_horizontal());
    assert!(!LayoutDir::BottomToTop.is_horizontal());
}
