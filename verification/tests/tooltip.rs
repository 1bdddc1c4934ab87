use retained_ui::point::Point;
use retained_ui::rectangle::Rectangle;
use retained_ui::size::Size;
use retained_ui::widget::tooltip::{place_overlay, Position};

fn viewport() -> Rectangle {
    Rectangle { x: 0, y: 0, width: 400, height: 300 }
}

fn widget() -> Rectangle {
    Rectangle { x: 100, y: 100, width: 80, height: 30 }
}

fn place(position: Position, bounds: Rectangle, cursor: Point) -> Rectangle {
    place_overlay(position, bounds, Size::new(60, 20), 3, 4, cursor, viewport())
}

#[test]
fn tooltip_stands_where_its_position_says() {
    let cursor = Point::new(120, 110);
    assert_eq!(place(Position::Top, widget(), cursor), Rectangle { x: 106, y: 69, width: 68, height: 28 });
    assert_eq!(place(Position::Bottom, widget(), cursor), Rectangle { x: 106, y: 133, width: 68, height: 28 });
    assert_eq!(place(Position::Left, widget(), cursor), Rectangle { x: 29, y: 101, width: 68, height: 28 });
    assert_eq!(place(Position::Right, widget(), cursor), Rectangle { x: 183, y: 101, width: 68, height: 28 });
    assert_eq!(place(Position::FollowCursor, widget(), cursor), Rectangle { x: 116, y: 86, width: 68, height: 28 });
}

#[test]
fn tooltip_is_clamped_to_the_top_edge() {
    let near_top = Rectangle { x: 100, y: 10, width: 80, height: 30 };
    let placed = place(Position::Top, near_top, Point::new(120, 20));
    assert_eq!(placed.y, 0);
    assert_eq!(placed, Rectangle { x: 106, y: 0, width: 68, height: 28 });
}

#[test]
fn tooltip_is_clamped_to_every_edge() {
    let near_left = Rectangle { x: 10, y: 100, width: 80, height: 30 };
    assert_eq!(place(Position::Left, near_left, Point::new(20, 110)).x, 0);
    let near_right = Rectangle { x: 310, y: 100, width: 80, height: 30 };
    assert_eq!(place(Position::Right, near_right, Point::new(320, 110)).x, 332);
    let near_bottom = Rectangle { x: 100, y: 260, width: 80, height: 30 };
    assert_eq!(place(Position::Bottom, near_bottom, Point::new(120, 270)).y, 272);
    let corner = place(Position::FollowCursor, widget(), Point::new(399, 1));
    assert_eq!(corner, Rectangle { x: 332, y: 0, width: 68, height: 28 });
}

#[test]
fn tooltip_in_a_shifted_viewport() {
    let view = Rectangle { x: -50, y: 40, width: 100, height: 100 };
    let bounds = Rectangle { x: -40, y: 45, width: 10, height: 10 };
    let placed = place_overlay(Position::Top, bounds, Size::new(20, 10), 0, 5, Point::new(-35, 50), view);
    assert_eq!(placed, Rectangle { x: -50, y: 40, width: 30, height: 20 });
}

#[test]
fn tooltip_larger_than_the_viewport_keeps_its_size() {
    let view = Rectangle { x: 0, y: 0, width: 50, height: 10 };
    let bounds = Rectangle { x: 10, y: 0, width: 10, height: 10 };
    let placed = place_overlay(Position::Bottom, bounds, Size::new(100, 100), 0, 0, Point::new(15, 5), view);
    assert_eq!(placed.width, 100);
    assert_eq!(placed.height, 100);
    assert_eq!(placed.x, 0);
    assert_eq!(placed.y, -90);
}

#[test]
fn tooltip_text_narrower_or_wider_than_the_widget_is_centered() {
    let bounds = Rectangle { x: 100, y: 100, width: 21, height: 30 };
    let wide = place_overlay(Position::Bottom, bounds, Size::new(60, 20), 0, 0, Point::new(0, 0), viewport());
    assert_eq!(wide.x, 80);
    let narrow = place_overlay(Position::Bottom, bounds, Size::new(10, 20), 0, 0, Point::new(0, 0), viewport());
    assert_eq!(narrow.x, 105);
}
