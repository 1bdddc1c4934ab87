use retained_ui::alignment::Alignment;
use retained_ui::element::Element;
use retained_ui::layout::flex::{resolve, Axis};
use retained_ui::layout::limits::Limits;
use retained_ui::layout::node::Node;
use retained_ui::layout::Layout;
use retained_ui::length::Length;
use retained_ui::padding::Padding;
use retained_ui::point::Point;
use retained_ui::rectangle::Rectangle;
use retained_ui::renderer::null::Null;
use retained_ui::size::Size;
use retained_ui::vector::Vector;
use retained_ui::widget::column::Column;
use retained_ui::widget::radio::Radio;
use retained_ui::widget::row::Row;
use retained_ui::widget::rule::Rule;
use retained_ui::widget::text::Text;
use retained_ui::widget::toggler::Toggler;
use retained_ui::widget::tooltip::{Position, Tooltip};

fn filler(portion: u16) -> Element<u8> {
    Element::Text(Text::new("").width(Length::FillPortion(portion)))
}

fn fixed(width: u16, height: u16) -> Element<u8> {
    Element::Row(Row::new().width(Length::Units(width)).height(Length::Units(height)))
}

fn window(width: u32, height: u32) -> Limits {
    Limits::new(Size::zero(), Size::new(width, height))
}

fn widths(node: &Node) -> Vec<u32> {
    node.children().iter().map(|child| child.size().width).collect()
}

fn lefts(node: &Node) -> Vec<i32> {
    node.children().iter().map(|child| child.bounds().x).collect()
}

#[test]
fn row_divides_space_by_fill_portions() {
    let renderer = Null::new();
    let row: Row<u8> = Row::new().width(Length::Fill).push(filler(1)).push(filler(2));
    let node = row.layout(&renderer, &window(300, 100));
    assert_eq!(node.size().width, 300);
    assert_eq!(widths(&node), vec![100, 200]);
    assert_eq!(lefts(&node), vec![0, 100]);
}

#[test]
fn shares_add_up_to_the_space_when_it_does_not_divide() {
    let renderer = Null::new();
    let row: Row<u8> = Row::new().width(Length::Fill).push(filler(1)).push(filler(1)).push(filler(1));
    let node = row.layout(&renderer, &window(100, 100));
    assert_eq!(widths(&node), vec![33, 33, 34]);
    assert_eq!(widths(&node).iter().sum::<u32>(), 100);
    assert_eq!(lefts(&node), vec![0, 33, 66]);
}

#[test]
fn fill_children_share_what_fixed_children_leave() {
    let renderer = Null::new();
    let row: Row<u8> = Row::new()
        .width(Length::Fill)
        .spacing(10)
        .push(fixed(50, 10))
        .push(filler(3))
        .push(fixed(30, 10))
        .push(Element::Text(Text::new("").width(Length::Fill)));
    let node = row.layout(&renderer, &window(310, 100));
    assert_eq!(widths(&node), vec![50, 150, 30, 50]);
    assert_eq!(lefts(&node), vec![0, 60, 220, 260]);
    assert_eq!(node.size().width, 310);
}

#[test]
fn no_space_left_gives_fill_children_nothing() {
    let renderer = Null::new();
    let row: Row<u8> = Row::new().width(Length::Fill).push(fixed(80, 10)).push(filler(1)).push(filler(5));
    let node = row.layout(&renderer, &window(60, 100));
    assert_eq!(widths(&node), vec![60, 0, 0]);
}

#[test]
fn spacing_larger_than_the_space_leaves_nothing() {
    let renderer = Null::new();
    let row: Row<u8> = Row::new().spacing(500).push(filler(1)).push(filler(1));
    let node = row.layout(&renderer, &window(100, 100));
    assert_eq!(widths(&node), vec![0, 0]);
    assert_eq!(lefts(&node), vec![0, 500]);
    assert_eq!(node.size().width, 100);
}

#[test]
fn empty_row_shrinks_to_nothing() {
    let renderer = Null::new();
    let row: Row<u8> = Row::new().align_items(Alignment::Center);
    let node = row.layout(&renderer, &window(300, 100));
    assert_eq!(node.size(), Size::new(0, 0));
    assert_eq!(node.children().len(), 0);
}

#[test]
fn empty_column_shrinks_to_the_minimum_of_the_limits() {
    let renderer = Null::new();
    let column: Column<u8> = Column::new();
    let limits = Limits::new(Size::new(12, 34), Size::new(300, 100));
    assert_eq!(column.layout(&renderer, &limits).size(), Size::new(12, 34));
}

#[test]
fn empty_container_that_fills_takes_the_space() {
    let renderer = Null::new();
    let row: Row<u8> = Row::new().width(Length::Fill).height(Length::Fill);
    assert_eq!(row.layout(&renderer, &window(300, 100)).size(), Size::new(300, 100));
    let fixed_row: Row<u8> = Row::new().width(Length::Units(40)).height(Length::Units(500));
    assert_eq!(fixed_row.layout(&renderer, &window(300, 100)).size(), Size::new(40, 100));
}

#[test]
fn empty_container_keeps_its_padding() {
    let renderer = Null::new();
    let row: Row<u8> = Row::new().padding(Padding::new(7));
    assert_eq!(row.layout(&renderer, &window(300, 100)).size(), Size::new(14, 14));
}

#[test]
fn max_width_caps_a_container_that_fills() {
    let renderer = Null::new();
    let row: Row<u8> = Row::new().width(Length::Fill).max_width(120).max_height(30).height(Length::Fill);
    assert_eq!(row.layout(&renderer, &window(300, 100)).size(), Size::new(120, 30));
}

#[test]
fn children_are_aligned_across_the_axis() {
    let renderer = Null::new();
    let make = |align| -> Node {
        let row: Row<u8> = Row::new().align_items(align).push(fixed(10, 40)).push(fixed(10, 11));
        row.layout(&renderer, &window(300, 100))
    };
    let start = make(Alignment::Start);
    assert_eq!(start.children()[1].bounds(), Rectangle { x: 10, y: 0, width: 10, height: 11 });
    let center = make(Alignment::Center);
    assert_eq!(center.children()[1].bounds(), Rectangle { x: 10, y: 14, width: 10, height: 11 });
    let end = make(Alignment::End);
    assert_eq!(end.children()[1].bounds(), Rectangle { x: 10, y: 29, width: 10, height: 11 });
    assert_eq!(end.size(), Size::new(20, 40));
}

#[test]
fn stretched_children_take_the_largest_height() {
    let renderer = Null::with_text(20, 30, 25);
    let row: Row<u8> = Row::new()
        .align_items(Alignment::Fill)
        .push(Element::Text(Text::new("a")))
        .push(Element::Text(Text::new("b").height(Length::Fill)));
    let node = row.layout(&renderer, &window(300, 100));
    assert_eq!(node.children()[0].size(), Size::new(30, 25));
    assert_eq!(node.children()[1].size(), Size::new(30, 25));
    assert_eq!(node.size(), Size::new(60, 25));
}

#[test]
fn column_stacks_children_with_spacing_and_padding() {
    let renderer = Null::new();
    let column: Column<u8> = Column::new()
        .padding(Padding { top: 1, right: 2, bottom: 3, left: 4 })
        .spacing(5)
        .align_items(Alignment::End)
        .push(fixed(10, 20))
        .push(fixed(30, 40));
    let node = column.layout(&renderer, &window(300, 300));
    assert_eq!(node.size(), Size::new(36, 69));
    assert_eq!(node.children()[0].bounds(), Rectangle { x: 24, y: 1, width: 10, height: 20 });
    assert_eq!(node.children()[1].bounds(), Rectangle { x: 4, y: 26, width: 30, height: 40 });
}

#[test]
fn column_divides_height_by_fill_portions() {
    let renderer = Null::new();
    let column: Column<u8> = Column::new()
        .height(Length::Fill)
        .push(Element::Text(Text::new("").height(Length::FillPortion(1))))
        .push(Element::Text(Text::new("").height(Length::FillPortion(3))));
    let node = column.layout(&renderer, &window(50, 400));
    assert_eq!(node.children()[0].size().height, 100);
    assert_eq!(node.children()[1].size().height, 300);
    assert_eq!(node.children()[1].bounds().y, 100);
}

#[test]
fn direct_flex_resolution() {
    let renderer = Null::new();
    let children: Vec<Element<u8>> = vec![fixed(10, 10), filler(1)];
    let limits = window(100, 50).width(Length::Fill).height(Length::Shrink);
    let node = resolve(Axis::Horizontal, &renderer, &limits, Padding::new(5), 3, Alignment::Start, &children);
    assert_eq!(node.size(), Size::new(100, 30));
    assert_eq!(node.children()[0].bounds(), Rectangle { x: 5, y: 5, width: 10, height: 10 });
    assert_eq!(node.children()[1].bounds(), Rectangle { x: 18, y: 5, width: 77, height: 20 });
    assert_eq!(Axis::Horizontal.main(Size::new(1, 2)), 1);
    assert_eq!(Axis::Vertical.main(Size::new(1, 2)), 2);
    assert_eq!(Axis::Horizontal.cross(Size::new(1, 2)), 2);
    assert_eq!(Axis::Vertical.pack(1, 2), Size::new(2, 1));
}

#[test]
fn text_takes_its_measure() {
    let renderer = Null::with_text(16, 70, 18);
    let text = Text::new("hello");
    assert_eq!(text.layout(&renderer, &window(300, 100)).size(), Size::new(70, 18));
    assert_eq!(text.layout(&renderer, &window(50, 10)).size(), Size::new(50, 10));
    let wide = Text::new("hello").width(Length::Fill).height(Length::Units(40));
    assert_eq!(wide.layout(&renderer, &window(300, 100)).size(), Size::new(300, 40));
}

#[test]
fn rule_takes_its_spacing() {
    let renderer = Null::new();
    assert_eq!(Rule::horizontal(4).layout(&renderer, &window(300, 100)).size(), Size::new(300, 4));
    assert_eq!(Rule::vertical(4).layout(&renderer, &window(300, 100)).size(), Size::new(4, 100));
}

#[test]
fn radio_is_a_circle_and_a_label() {
    let renderer = Null::with_text(20, 60, 20);
    let radio: Radio<u8> = Radio::new(1u8, "one", Some(1u8), |v| v);
    let node = radio.layout(&renderer, &window(300, 100));
    assert_eq!(node.size(), Size::new(103, 28));
    assert_eq!(node.children().len(), 2);
    assert_eq!(node.children()[0].bounds(), Rectangle { x: 0, y: 0, width: 28, height: 28 });
    assert_eq!(node.children()[1].bounds(), Rectangle { x: 43, y: 4, width: 60, height: 20 });
    let large = radio.size(40).spacing(2);
    let node = large.layout(&renderer, &window(300, 100));
    assert_eq!(node.children()[0].size(), Size::new(40, 40));
    assert_eq!(node.children()[1].bounds().x, 42);
}

#[test]
fn toggler_is_a_label_and_a_switch() {
    let renderer = Null::with_text(20, 60, 20);
    let toggler: Toggler<bool> = Toggler::new(false, Some(String::from("on")), |b| b);
    let node = toggler.layout(&renderer, &window(300, 100));
    assert_eq!(node.size(), Size::new(300, 20));
    assert_eq!(node.children().len(), 2);
    assert_eq!(node.children()[0].bounds(), Rectangle { x: 0, y: 0, width: 260, height: 20 });
    assert_eq!(node.children()[1].bounds(), Rectangle { x: 260, y: 0, width: 40, height: 20 });
    let bare: Toggler<bool> = Toggler::new(false, None, |b| b).size(u16::MAX).width(Length::Shrink);
    let node = bare.layout(&renderer, &window(100_000, 100_000));
    assert_eq!(node.children().len(), 1);
    assert_eq!(node.children()[0].size(), Size::new(65535, 65535));
}

#[test]
fn tooltip_takes_the_layout_of_its_content() {
    let renderer = Null::with_text(20, 60, 20);
    let tip: Tooltip<u8> = Tooltip::new(fixed(30, 10), "tip", Position::Top);
    let element = Element::Tooltip(Box::new(tip));
    let node = element.layout(&renderer, &window(300, 100));
    assert_eq!(node.size(), Size::new(30, 10));
    assert_eq!(element.width(), Length::Units(30));
    assert_eq!(element.height(), Length::Units(10));
}

#[test]
fn node_can_be_moved_and_aligned() {
    let mut node = Node::new(Size::new(10, 20));
    node.move_to(Point::new(3, 4));
    assert_eq!(node.bounds(), Rectangle { x: 3, y: 4, width: 10, height: 20 });
    node.align(Alignment::Center, Alignment::End, Size::new(30, 50));
    assert_eq!(node.bounds(), Rectangle { x: 13, y: 34, width: 10, height: 20 });
    node.align(Alignment::Center, Alignment::Fill, Size::new(5, 7));
    assert_eq!(node.bounds(), Rectangle { x: 10, y: 34, width: 10, height: 7 });
    let parent = Node::with_children(Size::new(100, 100), vec![node]);
    assert_eq!(parent.children().len(), 1);
    assert_eq!(parent.size(), Size::new(100, 100));
}

#[test]
fn layout_gives_absolute_bounds() {
    let mut child = Node::new(Size::new(10, 20));
    child.move_to(Point::new(3, 4));
    let mut parent = Node::with_children(Size::new(100, 100), vec![child]);
    parent.move_to(Point::new(50, 60));
    let layout = Layout::new(&parent);
    assert_eq!(layout.position(), Point::new(50, 60));
    assert_eq!(layout.bounds(), Rectangle { x: 50, y: 60, width: 100, height: 100 });
    assert_eq!(layout.child_count(), 1);
    assert_eq!(layout.child(0).bounds(), Rectangle { x: 53, y: 64, width: 10, height: 20 });
    let children = layout.children();
    assert_eq!(children.len(), 1);
    assert_eq!(children[0].bounds(), Rectangle { x: 53, y: 64, width: 10, height: 20 });
    let moved = Layout::with_offset(Vector::new(-100, i32::MAX), &parent);
    assert_eq!(moved.position(), Point::new(-50, i32::MAX));
}

fn nested(node: &Node) -> bool {
    node.children().iter().all(|child| {
        let bounds = child.bounds();
        bounds.x >= 0
            && bounds.y >= 0
            && bounds.x as i64 + bounds.width as i64 <= node.size().width as i64
            && bounds.y as i64 + bounds.height as i64 <= node.size().height as i64
            && nested(child)
    })
}

fn form() -> Element<u8> {
    Element::Column(
        Column::new()
            .padding(Padding::new(10))
            .spacing(5)
            .width(Length::Fill)
            .align_items(Alignment::Center)
            .push(Element::Text(Text::new("title")))
            .push(Element::Row(
                Row::new()
                    .spacing(8)
                    .align_items(Alignment::Fill)
                    .push(Element::Radio(Radio::new(1u8, "one", None, |v| v)))
                    .push(filler(2))
                    .push(Element::Rule(Rule::vertical(3)))
                    .push(Element::Toggler(Toggler::new(true, Some(String::from("on")), |_| 0u8))),
            ))
            .push(Element::Rule(Rule::horizontal(4)))
            .push(Element::Tooltip(Box::new(Tooltip::new(fixed(30, 30), "tip", Position::Top)))),
    )
}

#[test]
fn nodes_contain_their_children_where_there_is_room() {
    let renderer = Null::with_text(20, 40, 20);
    let node = form().layout(&renderer, &window(600, 400));
    assert!(nested(&node));
    assert_eq!(node.size().width, 600);
    let tight = form().layout(&renderer, &window(150, 400));
    assert!(nested(&tight));
}

#[test]
fn a_container_without_room_for_its_gaps_does_not_contain_its_children() {
    let renderer = Null::new();
    let row: Row<u8> = Row::new().spacing(500).push(filler(1)).push(filler(1));
    let node = row.layout(&renderer, &window(100, 100));
    assert!(!nested(&node));
}

#[test]
fn filling_toggler_gives_its_label_the_rest() {
    let renderer = Null::with_text(20, 60, 20);
    let toggler: Toggler<bool> = Toggler::new(false, Some(String::from("on")), |b| b).size(30).spacing(7);
    let node = toggler.layout(&renderer, &window(500, 100));
    assert_eq!(node.size().width, 500);
    assert_eq!(node.children()[0].bounds(), Rectangle { x: 0, y: 5, width: 433, height: 20 });
    assert_eq!(node.children()[1].bounds(), Rectangle { x: 440, y: 0, width: 60, height: 30 });
    let huge: Toggler<bool> = Toggler::new(false, Some(String::from("on")), |b| b).size(40000);
    let node = huge.layout(&renderer, &window(70000, 100));
    assert_eq!(node.children()[1].size().width, 65535);
    assert_eq!(node.children()[0].size().width, 4465);
    assert_eq!(node.size().width, 70000);
}

#[test]
fn new_tooltip_has_plain_text() {
    let tip: Tooltip<u8> = Tooltip::new(fixed(1, 1), "tip", Position::FollowCursor);
    assert_eq!(tip.tooltip.content, "tip");
    assert_eq!(tip.tooltip.size, None);
    assert_eq!(tip.tooltip.color, None);
    assert_eq!(tip.tooltip.width, Length::Shrink);
    assert_eq!(tip.tooltip.height, Length::Shrink);
    assert_eq!(tip.tooltip.horizontal_alignment, retained_ui::alignment::Horizontal::Left);
    assert_eq!(tip.tooltip.vertical_alignment, retained_ui::alignment::Vertical::Top);
    assert_eq!(tip.position, Position::FollowCursor);
    assert_eq!(tip.gap, 0);
    assert_eq!(tip.padding, 5);
}
