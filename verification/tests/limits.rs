use retained_ui::layout::limits::Limits;
use retained_ui::length::Length;
use retained_ui::padding::Padding;
use retained_ui::size::Size;

fn offered() -> Limits {
    Limits::new(Size::new(10, 20), Size::new(300, 200))
}

#[test]
fn new_limits_have_no_floor_yet() {
    let limits = offered();
    assert_eq!(limits.min(), Size::new(10, 20));
    assert_eq!(limits.max(), Size::new(300, 200));
    assert_eq!(limits.fill(), Size::new(u32::MAX, u32::MAX));
}

#[test]
fn shrink_resolves_to_content_within_bounds() {
    let limits = offered().width(Length::Shrink).height(Length::Shrink);
    assert_eq!(limits.resolve(Size::new(50, 60)), Size::new(50, 60));
    assert_eq!(limits.resolve(Size::new(0, 0)), Size::new(10, 20));
    assert_eq!(limits.resolve(Size::new(1000, 1000)), Size::new(300, 200));
}

#[test]
fn fill_resolves_to_the_largest_size() {
    let limits = offered().width(Length::Fill).height(Length::FillPortion(3));
    assert_eq!(limits.resolve(Size::new(50, 60)), Size::new(300, 200));
    assert_eq!(limits.resolve(Size::new(0, 0)), Size::new(300, 200));
}

#[test]
fn units_fix_the_size_within_bounds() {
    let limits = offered().width(Length::Units(100)).height(Length::Units(5));
    assert_eq!(limits.min(), Size::new(100, 20));
    assert_eq!(limits.max(), Size::new(100, 20));
    assert_eq!(limits.resolve(Size::new(7, 7)), Size::new(100, 20));
    let wide = offered().width(Length::Units(1000));
    assert_eq!(wide.max().width, 300);
}

#[test]
fn bounds_can_be_tightened() {
    assert_eq!(offered().max_width(50).max().width, 50);
    assert_eq!(offered().max_width(5).max().width, 10);
    assert_eq!(offered().max_height(50).max().height, 50);
    assert_eq!(offered().max_height(5).max().height, 20);
}

#[test]
fn padding_shrinks_every_bound() {
    let limits = offered().width(Length::Fill).pad(Padding::new(15));
    assert_eq!(limits.min(), Size::new(0, 0));
    assert_eq!(limits.max(), Size::new(270, 170));
    assert_eq!(limits.fill().width, 270);
    let gone = offered().shrink(Size::new(1000, 1000));
    assert_eq!(gone.max(), Size::new(0, 0));
}

#[test]
fn fill_factors() {
    assert_eq!(Length::Fill.fill_factor(), 1);
    assert_eq!(Length::FillPortion(7).fill_factor(), 7);
    assert_eq!(Length::Shrink.fill_factor(), 0);
    assert_eq!(Length::Units(9).fill_factor(), 0);
}
