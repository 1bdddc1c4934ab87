use retained_ui::element::Element;
use retained_ui::event::{Event, Status};
use retained_ui::keyboard;
use retained_ui::layout::limits::Limits;
use retained_ui::layout::node::Node;
use retained_ui::layout::Layout;
use retained_ui::mouse;
use retained_ui::point::Point;
use retained_ui::renderer::null::Null;
use retained_ui::size::Size;
use retained_ui::touch;
use retained_ui::widget::column::Column;
use retained_ui::widget::radio::Radio;
use retained_ui::widget::row::Row;
use retained_ui::widget::text::Text;
use retained_ui::widget::toggler::Toggler;
use retained_ui::widget::tooltip::{Position, Tooltip};
use retained_ui::window;

#[derive(Debug, Clone, Copy, PartialEq, Eq)]
enum Choice {
    A,
    B,
}

#[derive(Debug, Clone, Copy, PartialEq, Eq)]
enum Message {
    RadioSelected(Choice),
    TogglerToggled(bool),
}

fn left_press() -> Event {
    Event::Mouse(mouse::Event::ButtonPressed(mouse::Button::Left))
}

fn finger_press() -> Event {
    Event::Touch(touch::Event::FingerPressed { id: touch::Finger(1), position: Point::new(0, 0) })
}

fn square() -> Node {
    Node::new(Size::new(28, 28))
}

#[test]
fn radio_press_inside_emits_one_message() {
    let radio = Radio::new(Choice::A, "This is A", Some(Choice::B), Message::RadioSelected);
    let node = square();
    let mut messages = Vec::new();
    let status = radio.on_event(left_press(), Layout::new(&node), Point::new(10, 10), &mut messages);
    assert_eq!(status, Status::Captured);
    assert_eq!(messages, vec![Message::RadioSelected(Choice::A)]);
}

#[test]
fn radio_press_outside_is_ignored() {
    let radio = Radio::new(Choice::A, "This is A", Some(Choice::B), Message::RadioSelected);
    let node = square();
    let mut messages = Vec::new();
    let status = radio.on_event(left_press(), Layout::new(&node), Point::new(50, 50), &mut messages);
    assert_eq!(status, Status::Ignored);
    assert!(messages.is_empty());
}

#[test]
fn radio_reacts_to_a_finger_and_to_nothing_else() {
    let radio = Radio::new(Choice::B, "This is B", None, Message::RadioSelected);
    let node = square();
    let mut messages = vec![Message::TogglerToggled(true)];
    let inside = Point::new(27, 0);
    assert_eq!(radio.on_event(finger_press(), Layout::new(&node), inside, &mut messages), Status::Captured);
    assert_eq!(messages, vec![Message::TogglerToggled(true), Message::RadioSelected(Choice::B)]);
    let others = [
        Event::Mouse(mouse::Event::ButtonPressed(mouse::Button::Right)),
        Event::Mouse(mouse::Event::ButtonReleased(mouse::Button::Left)),
        Event::Mouse(mouse::Event::CursorMoved { position: inside }),
        Event::Touch(touch::Event::FingerLifted { id: touch::Finger(1), position: inside }),
        Event::Keyboard(keyboard::Event::CharacterReceived('a')),
        Event::Window(window::Event::Resized { width: 1, height: 1 }),
    ];
    for event in others {
        assert_eq!(radio.on_event(event, Layout::new(&node), inside, &mut messages), Status::Ignored);
    }
    assert_eq!(messages.len(), 2);
    assert_eq!(radio.on_event(left_press(), Layout::new(&node), Point::new(28, 0), &mut messages), Status::Ignored);
}

#[test]
fn radio_knows_whether_it_is_selected() {
    let selected = Radio::new(Choice::A, "a", Some(Choice::A), Message::RadioSelected);
    assert!(selected.is_selected);
    assert_eq!(selected.on_click, Message::RadioSelected(Choice::A));
    let other = Radio::new(Choice::A, "a", Some(Choice::B), Message::RadioSelected);
    assert!(!other.is_selected);
    let none = Radio::new(Choice::A, "a", None, Message::RadioSelected);
    assert!(!none.is_selected);
    assert_eq!(none.label, "a");
    assert_eq!(none.size, 28);
    assert_eq!(none.spacing, 15);
}

#[test]
fn toggler_press_emits_the_other_position() {
    let node = Node::new(Size::new(40, 20));
    let off = Toggler::new(false, None, Message::TogglerToggled);
    let mut messages = Vec::new();
    assert_eq!(off.on_event(left_press(), Layout::new(&node), Point::new(39, 19), &mut messages), Status::Captured);
    assert_eq!(messages, vec![Message::TogglerToggled(true)]);
    let on = Toggler::new(true, Some(String::from("label")), Message::TogglerToggled);
    assert_eq!(on.on_event(left_press(), Layout::new(&node), Point::new(0, 0), &mut messages), Status::Captured);
    assert_eq!(messages, vec![Message::TogglerToggled(true), Message::TogglerToggled(false)]);
}

#[test]
fn toggler_reacts_to_a_finger() {
    let node = Node::new(Size::new(40, 20));
    let toggler = Toggler::new(true, None, Message::TogglerToggled);
    let mut messages = vec![Message::RadioSelected(Choice::A)];
    assert_eq!(toggler.on_event(finger_press(), Layout::new(&node), Point::new(5, 5), &mut messages), Status::Captured);
    assert_eq!(messages, vec![Message::RadioSelected(Choice::A), Message::TogglerToggled(false)]);
}

#[test]
fn toggler_ignores_misses_and_other_events() {
    let node = Node::new(Size::new(40, 20));
    let toggler = Toggler::new(false, None, Message::TogglerToggled);
    let mut messages = Vec::new();
    assert_eq!(toggler.on_event(left_press(), Layout::new(&node), Point::new(40, 5), &mut messages), Status::Ignored);
    assert_eq!(toggler.on_event(left_press(), Layout::new(&node), Point::new(5, 20), &mut messages), Status::Ignored);
    assert_eq!(toggler.on_event(finger_press(), Layout::new(&node), Point::new(-1, 5), &mut messages), Status::Ignored);
    let inside = Point::new(5, 5);
    let others = [
        Event::Mouse(mouse::Event::ButtonPressed(mouse::Button::Middle)),
        Event::Mouse(mouse::Event::ButtonReleased(mouse::Button::Left)),
        Event::Touch(touch::Event::FingerMoved { id: touch::Finger(1), position: inside }),
        Event::Keyboard(keyboard::Event::CharacterReceived(' ')),
    ];
    for event in others {
        assert_eq!(toggler.on_event(event, Layout::new(&node), inside, &mut messages), Status::Ignored);
    }
    assert!(messages.is_empty());
}

#[test]
fn status_merges_to_captured() {
    assert_eq!(Status::Ignored.merge(Status::Ignored), Status::Ignored);
    assert_eq!(Status::Ignored.merge(Status::Captured), Status::Captured);
    assert_eq!(Status::Captured.merge(Status::Ignored), Status::Captured);
    assert_eq!(Status::Captured.merge(Status::Captured), Status::Captured);
    assert!(left_press().is_press());
    assert!(finger_press().is_press());
    assert!(!Event::Mouse(mouse::Event::CursorEntered).is_press());
}

fn choices() -> Element<Message> {
    Element::Column(
        Column::new()
            .push(Element::Text(Text::new("Pick one")))
            .push(Element::Radio(Radio::new(Choice::A, "A", Some(Choice::A), Message::RadioSelected)))
            .push(Element::Radio(Radio::new(Choice::B, "B", Some(Choice::A), Message::RadioSelected)))
            .push(Element::Row(Row::new().push(Element::Toggler(
                Toggler::new(false, None, Message::TogglerToggled).width(retained_ui::length::Length::Shrink),
            )))),
    )
}

#[test]
fn dispatch_reaches_the_widget_under_the_cursor() {
    let renderer = Null::with_text(20, 50, 20);
    let tree = choices();
    let node = tree.layout(&renderer, &Limits::new(Size::zero(), Size::new(400, 400)));
    assert_eq!(node.size(), Size::new(93, 96));
    let layout = Layout::new(&node);
    let mut messages = Vec::new();
    assert_eq!(tree.on_event(left_press(), layout, Point::new(5, 25), &mut messages), Status::Captured);
    assert_eq!(messages, vec![Message::RadioSelected(Choice::A)]);
    assert_eq!(tree.on_event(left_press(), layout, Point::new(60, 50), &mut messages), Status::Captured);
    assert_eq!(messages, vec![Message::RadioSelected(Choice::A), Message::RadioSelected(Choice::B)]);
    assert_eq!(tree.on_event(left_press(), layout, Point::new(5, 80), &mut messages), Status::Captured);
    assert_eq!(messages.len(), 3);
    assert_eq!(messages[2], Message::TogglerToggled(true));
    assert_eq!(tree.on_event(left_press(), layout, Point::new(5, 5), &mut messages), Status::Ignored);
    assert_eq!(tree.on_event(left_press(), layout, Point::new(300, 300), &mut messages), Status::Ignored);
    assert_eq!(tree.on_event(finger_press(), layout, Point::new(5, 80), &mut messages), Status::Captured);
    assert_eq!(messages.len(), 4);
    assert_eq!(messages[3], Message::TogglerToggled(true));
}

#[test]
fn overlapping_children_all_receive_the_event() {
    let first = Radio::new(Choice::A, "A", None, Message::RadioSelected);
    let second = Radio::new(Choice::B, "B", None, Message::RadioSelected);
    let row: Row<Message> = Row::new().push(Element::Radio(first)).push(Element::Radio(second));
    let node = Node::with_children(Size::new(28, 28), vec![square(), square()]);
    let mut messages = Vec::new();
    assert_eq!(row.on_event(left_press(), Layout::new(&node), Point::new(1, 1), &mut messages), Status::Captured);
    assert_eq!(messages, vec![Message::RadioSelected(Choice::A), Message::RadioSelected(Choice::B)]);
}

#[test]
fn children_without_a_node_receive_nothing() {
    let row: Row<Message> = Row::new()
        .push(Element::Radio(Radio::new(Choice::A, "A", None, Message::RadioSelected)))
        .push(Element::Radio(Radio::new(Choice::B, "B", None, Message::RadioSelected)));
    let node = Node::with_children(Size::new(28, 28), vec![square()]);
    let mut messages = Vec::new();
    assert_eq!(row.on_event(left_press(), Layout::new(&node), Point::new(1, 1), &mut messages), Status::Captured);
    assert_eq!(messages, vec![Message::RadioSelected(Choice::A)]);
}

#[test]
fn tooltip_hands_events_to_its_content() {
    let radio = Element::Radio(Radio::new(Choice::A, "A", None, Message::RadioSelected));
    let tip = Tooltip::new(radio, "about A", Position::Bottom);
    let node = square();
    let mut messages = Vec::new();
    assert_eq!(tip.on_event(left_press(), Layout::new(&node), Point::new(1, 1), &mut messages), Status::Captured);
    assert_eq!(messages, vec![Message::RadioSelected(Choice::A)]);
    let element = Element::Tooltip(Box::new(tip));
    assert_eq!(element.on_event(left_press(), Layout::new(&node), Point::new(30, 1), &mut messages), Status::Ignored);
    assert_eq!(messages.len(), 1);
}
