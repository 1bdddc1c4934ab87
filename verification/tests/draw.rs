use retained_ui::alignment::{Horizontal, Vertical};
use retained_ui::background::Background;
use retained_ui::backend::Text as Measure;
use retained_ui::color::Color;
use retained_ui::element::Element;
use retained_ui::font::Font;
use retained_ui::layout::limits::Limits;
use retained_ui::layout::node::Node;
use retained_ui::layout::Layout;
use retained_ui::length::Length;
use retained_ui::point::Point;
use retained_ui::primitive::Primitive;
use retained_ui::rectangle::Rectangle;
use retained_ui::renderer::null::Null;
use retained_ui::renderer::{Defaults, Renderer};
use retained_ui::size::Size;
use retained_ui::style::container;
use retained_ui::style::rule::{FillMode, Style as RuleStyle};
use retained_ui::vector::Offset;
use retained_ui::widget::radio::Radio;
use retained_ui::widget::row::Row;
use retained_ui::widget::rule::Rule;
use retained_ui::widget::text::{fill_text, Text};
use retained_ui::widget::toggler::Toggler;
use retained_ui::widget::tooltip::{Position, Tooltip};

fn viewport() -> Rectangle {
    Rectangle { x: 0, y: 0, width: 400, height: 300 }
}

fn away() -> Point {
    Point::new(-1, -1)
}

fn at(x: i32, y: i32, width: u32, height: u32) -> Node {
    let mut node = Node::new(Size::new(width, height));
    node.move_to(Point::new(x, y));
    node
}

fn quad_bounds(p: &Primitive<()>) -> Rectangle {
    match p {
        Primitive::Quad { bounds, .. } => *bounds,
        _ => panic!("not a quad"),
    }
}

fn text_parts(p: &Primitive<()>) -> (String, Rectangle, Color, u16) {
    match p {
        Primitive::Text { content, bounds, color, size, .. } => (content.clone(), *bounds, *color, *size),
        _ => panic!("not a text"),
    }
}

fn parts(p: Primitive<()>) -> Vec<Primitive<()>> {
    match p {
        Primitive::Group { primitives } => primitives,
        _ => panic!("not a group"),
    }
}

#[test]
fn text_is_anchored_by_its_alignment() {
    let defaults = Defaults::default();
    let bounds = Rectangle { x: 10, y: 20, width: 30, height: 41 };
    let left: Primitive<()> =
        fill_text(&defaults, bounds, "abc", 12, Font::Default, None, Horizontal::Left, Vertical::Top);
    assert_eq!(text_parts(&left), (String::from("abc"), bounds, Color::black(), 12));
    let center: Primitive<()> =
        fill_text(&defaults, bounds, "abc", 12, Font::Default, None, Horizontal::Center, Vertical::Center);
    assert_eq!(text_parts(&center).1, Rectangle { x: 25, y: 40, width: 30, height: 41 });
    let red = Color::from_rgb(255, 0, 0);
    let right: Primitive<()> =
        fill_text(&defaults, bounds, "abc", 12, Font::Default, Some(red), Horizontal::Right, Vertical::Bottom);
    assert_eq!(text_parts(&right).1, Rectangle { x: 40, y: 61, width: 30, height: 41 });
    assert_eq!(text_parts(&right).2, red);
}

#[test]
fn text_widget_draws_itself() {
    let mut renderer = Null::with_text(16, 70, 18);
    let node = at(5, 6, 70, 18);
    let defaults = Defaults::default();
    let plain: Primitive<()> = Text::new("hi").draw(&mut renderer, &defaults, Layout::new(&node), away(), &viewport());
    assert_eq!(text_parts(&plain), (String::from("hi"), Rectangle { x: 5, y: 6, width: 70, height: 18 }, Color::black(), 16));
    let styled = Text::new("hi")
        .size(30)
        .color(Color::white())
        .font(Font::Default)
        .horizontal_alignment(Horizontal::Right)
        .vertical_alignment(Vertical::Center);
    let drawn: Primitive<()> = styled.draw(&mut renderer, &defaults, Layout::new(&node), away(), &viewport());
    assert_eq!(text_parts(&drawn), (String::from("hi"), Rectangle { x: 75, y: 15, width: 70, height: 18 }, Color::white(), 30));
    assert_eq!(renderer.open(), 0);
    assert!(renderer.begun().is_empty());
    let copy = styled.clone();
    assert_eq!(copy.content, "hi");
    assert_eq!(copy.size, Some(30));
    assert_eq!(copy.color, Some(Color::white()));
}

#[test]
fn rule_draws_a_centered_line() {
    let mut renderer = Null::new();
    let defaults = Defaults::default();
    let node = at(10, 20, 100, 9);
    let rule = Rule::horizontal(9);
    let line: Primitive<()> = rule.draw(&mut renderer, &defaults, Layout::new(&node), away(), &viewport());
    assert_eq!(quad_bounds(&line), Rectangle { x: 10, y: 24, width: 100, height: 1 });
    let padded = Rule::vertical(9).style(RuleStyle {
        color: Color::black(),
        width: 3,
        radius: 1,
        fill_mode: FillMode::Padded(2),
    });
    let node = at(10, 20, 9, 100);
    let line: Primitive<()> = padded.draw(&mut renderer, &defaults, Layout::new(&node), away(), &viewport());
    assert_eq!(quad_bounds(&line), Rectangle { x: 13, y: 22, width: 3, height: 96 });
    match line {
        Primitive::Quad { background, border_radius, border_width, border_color, .. } => {
            assert_eq!(background, Background::Color(Color::black()));
            assert_eq!(border_radius, 1);
            assert_eq!(border_width, 0);
            assert_eq!(border_color, Color::transparent());
        }
        _ => panic!("not a quad"),
    }
}

#[test]
fn fill_modes() {
    assert_eq!(FillMode::Full.fill(100), (0, 100));
    assert_eq!(FillMode::Percent(50).fill(100), (25, 50));
    assert_eq!(FillMode::Percent(33).fill(10), (3, 3));
    assert_eq!(FillMode::Percent(100).fill(100), (0, 100));
    assert_eq!(FillMode::Percent(200).fill(100), (0, 100));
    assert_eq!(FillMode::Percent(99).fill(u32::MAX), (21474836, 4252017622));
    assert_eq!(FillMode::Padded(10).fill(100), (10, 80));
    assert_eq!(FillMode::Padded(60).fill(100), (60, 0));
    assert_eq!(FillMode::Padded(0).fill(100), (0, 100));
    assert_eq!(FillMode::AsymmetricPadding(10, 30).fill(100), (10, 60));
    assert_eq!(FillMode::AsymmetricPadding(90, 30).fill(100), (90, 0));
}

fn radio_layout() -> Node {
    Node::with_children(Size::new(103, 28), vec![at(0, 0, 28, 28), at(43, 4, 60, 20)])
}

#[test]
fn radio_draws_circle_dot_and_label() {
    let mut renderer = Null::with_text(20, 60, 20);
    let defaults = Defaults::default();
    let node = radio_layout();
    let radio: Radio<u8> = Radio::new(1u8, "one", Some(1u8), |v| v).text_color(Color::white()).text_size(11);
    let drawn = parts(radio.draw(&mut renderer, &defaults, Layout::new(&node), away(), &viewport()));
    assert_eq!(drawn.len(), 3);
    assert_eq!(quad_bounds(&drawn[0]), Rectangle { x: 0, y: 0, width: 28, height: 28 });
    assert_eq!(quad_bounds(&drawn[1]), Rectangle { x: 7, y: 7, width: 14, height: 14 });
    assert_eq!(text_parts(&drawn[2]), (String::from("one"), Rectangle { x: 43, y: 14, width: 60, height: 20 }, Color::white(), 11));
    match &drawn[0] {
        Primitive::Quad { background, border_radius, border_width, .. } => {
            assert_eq!(*background, radio.style.active.background);
            assert_eq!(*border_radius, 14);
            assert_eq!(*border_width, 1);
        }
        _ => panic!("not a quad"),
    }
    match &drawn[1] {
        Primitive::Quad { background, border_radius, border_width, border_color, .. } => {
            assert_eq!(*background, Background::Color(radio.style.active.dot_color));
            assert_eq!(*border_radius, 7);
            assert_eq!(*border_width, 0);
            assert_eq!(*border_color, Color::transparent());
        }
        _ => panic!("not a quad"),
    }
}

#[test]
fn radio_without_selection_has_no_dot_and_hovers() {
    let mut renderer = Null::with_text(20, 60, 20);
    let defaults = Defaults::default();
    let node = radio_layout();
    let radio: Radio<u8> = Radio::new(1u8, "one", Some(2u8), |v| v);
    let drawn = parts(radio.draw(&mut renderer, &defaults, Layout::new(&node), Point::new(100, 27), &viewport()));
    assert_eq!(drawn.len(), 2);
    match &drawn[0] {
        Primitive::Quad { background, .. } => assert_eq!(*background, radio.style.hovered.background),
        _ => panic!("not a quad"),
    }
    assert_ne!(radio.style.hovered.background, radio.style.active.background);
    assert_eq!(text_parts(&drawn[1]).3, 20);
    assert_eq!(text_parts(&drawn[1]).2, Color::black());
}

#[test]
fn toggler_draws_label_track_and_knob() {
    let mut renderer = Null::with_text(20, 60, 20);
    let defaults = Defaults::default();
    let node = Node::with_children(Size::new(300, 40), vec![at(0, 10, 220, 20), at(220, 0, 80, 40)]);
    let off: Toggler<bool> = Toggler::new(false, Some(String::from("wifi")), |b| b).text_alignment(Horizontal::Right);
    let drawn = parts(off.draw(&mut renderer, &defaults, Layout::new(&node), away(), &viewport()));
    assert_eq!(drawn.len(), 3);
    assert_eq!(text_parts(&drawn[0]).1, Rectangle { x: 220, y: 20, width: 220, height: 20 });
    assert_eq!(quad_bounds(&drawn[1]), Rectangle { x: 222, y: 2, width: 76, height: 36 });
    assert_eq!(quad_bounds(&drawn[2]), Rectangle { x: 224, y: 4, width: 32, height: 32 });
    match &drawn[1] {
        Primitive::Quad { background, border_radius, border_width, border_color, .. } => {
            assert_eq!(*background, Background::Color(off.style.active_off.background));
            assert_eq!(*border_radius, 16);
            assert_eq!(*border_width, 1);
            assert_eq!(*border_color, off.style.active_off.background);
        }
        _ => panic!("not a quad"),
    }
    let on: Toggler<bool> = Toggler::new(true, None, |b| b);
    let node = Node::with_children(Size::new(80, 40), vec![at(0, 0, 80, 40)]);
    let drawn = parts(on.draw(&mut renderer, &defaults, Layout::new(&node), Point::new(1, 1), &viewport()));
    assert_eq!(drawn.len(), 2);
    assert_eq!(quad_bounds(&drawn[1]), Rectangle { x: 44, y: 4, width: 32, height: 32 });
    match &drawn[1] {
        Primitive::Quad { background, .. } => {
            assert_eq!(*background, Background::Color(on.style.hovered_on.foreground))
        }
        _ => panic!("not a quad"),
    }
}

fn hovered_tooltip(position: Position) -> (Tooltip<u8>, Node) {
    let content = Element::Row(Row::new().width(Length::Units(100)).height(Length::Units(20)));
    let tip = Tooltip::new(content, "tip", position).gap(3).padding(4);
    (tip, at(50, 10, 100, 20))
}

#[test]
fn tooltip_above_the_viewport_is_clamped_to_its_top() {
    let mut renderer = Null::with_text(20, 60, 20);
    let defaults = Defaults::default();
    let (tip, node) = hovered_tooltip(Position::Top);
    let drawn = parts(tip.draw(&mut renderer, &defaults, Layout::new(&node), Point::new(60, 15), &viewport()));
    assert_eq!(drawn.len(), 2);
    assert!(matches!(drawn[0], Primitive::Group { .. }));
    match &drawn[1] {
        Primitive::Clip { bounds, offset, content } => {
            assert_eq!(*bounds, viewport());
            assert_eq!(*offset, Offset::new(0, 0));
            assert_eq!(text_parts(content), (String::from("tip"), Rectangle { x: 70, y: 4, width: 60, height: 20 }, Color::black(), 20));
        }
        _ => panic!("not a clip"),
    }
    assert_eq!(renderer.begun(), &vec![viewport()]);
    assert_eq!(renderer.open(), 0);
}

#[test]
fn tooltip_is_not_drawn_while_the_cursor_is_elsewhere() {
    let mut renderer = Null::with_text(20, 60, 20);
    let defaults = Defaults::default();
    let (tip, node) = hovered_tooltip(Position::Top);
    let drawn: Primitive<()> = tip.draw(&mut renderer, &defaults, Layout::new(&node), Point::new(10, 15), &viewport());
    assert!(parts(drawn).is_empty());
    assert!(renderer.begun().is_empty());
}

#[test]
fn tooltip_text_color_comes_from_the_style() {
    let mut renderer = Null::with_text(20, 60, 20);
    let defaults = Defaults::default();
    let (tip, node) = hovered_tooltip(Position::Bottom);
    let style = container::Style {
        text_color: Some(Color::white()),
        background: Some(Background::Color(Color::black())),
        border_radius: 2,
        border_width: 1,
        border_color: Color::white(),
    };
    let tip = tip.style(style).size(9);
    let drawn = parts(tip.draw(&mut renderer, &defaults, Layout::new(&node), Point::new(60, 15), &viewport()));
    match &drawn[1] {
        Primitive::Clip { content, .. } => {
            assert_eq!(
                text_parts(content),
                (String::from("tip"), Rectangle { x: 70, y: 37, width: 60, height: 20 }, Color::white(), 9)
            );
        }
        _ => panic!("not a clip"),
    }
}

#[test]
fn containers_group_their_children_in_order() {
    let mut renderer = Null::with_text(20, 60, 20);
    let defaults = Defaults::default();
    let (tip, _) = hovered_tooltip(Position::Right);
    let tree: Element<u8> = Element::Row(
        Row::new()
            .push(Element::Text(Text::new("first")))
            .push(Element::Tooltip(Box::new(tip)))
            .push(Element::Rule(Rule::vertical(2)))
            .push(Element::Radio(Radio::new(1u8, "r", None, |v| v)))
            .push(Element::Toggler(Toggler::new(true, None, |_| 0u8).width(Length::Shrink))),
    );
    let node = tree.layout(&renderer, &Limits::new(Size::zero(), Size::new(400, 300)));
    let drawn = parts(tree.draw(&mut renderer, &defaults, Layout::new(&node), Point::new(70, 5), &viewport()));
    assert_eq!(drawn.len(), 5);
    assert_eq!(text_parts(&drawn[0]).0, "first");
    assert_eq!(parts(renumber(&drawn[1])).len(), 2);
    assert!(matches!(drawn[2], Primitive::Quad { .. }));
    assert_eq!(parts(renumber(&drawn[3])).len(), 2);
    assert_eq!(parts(renumber(&drawn[4])).len(), 2);
    assert_eq!(renderer.begun(), &vec![viewport()]);
    assert_eq!(renderer.open(), 0);
}

fn renumber(p: &Primitive<()>) -> Primitive<()> {
    match p {
        Primitive::Group { primitives } => Primitive::Group { primitives: primitives.iter().map(|_| Primitive::Empty).collect() },
        _ => panic!("not a group"),
    }
}

#[test]
fn null_renderer_keeps_the_record_of_layers() {
    let mut renderer = Null::new();
    assert_eq!(renderer.default_size(), 20);
    assert_eq!(renderer.measure("anything", 10, Font::Default, Size::new(5, 5)), (0, 20));
    assert!(renderer.hit_test("anything", 10, Font::Default, Size::new(5, 5), Point::new(0, 0), true).is_none());
    let a = Rectangle { x: 0, y: 0, width: 1, height: 1 };
    let b = Rectangle { x: 1, y: 1, width: 2, height: 2 };
    renderer.begin_layer(a);
    renderer.begin_layer(b);
    assert_eq!(renderer.open(), 2);
    renderer.end_layer();
    renderer.after_layout();
    assert_eq!(renderer.open(), 1);
    renderer.end_layer();
    assert_eq!(renderer.open(), 0);
    assert_eq!(renderer.begun(), &vec![a, b]);
}
