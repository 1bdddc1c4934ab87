use retained_ui::alignment::Alignment;
use retained_ui::color::Color;
use retained_ui::element::Element;
use retained_ui::hasher::Hasher;
use retained_ui::length::Length;
use retained_ui::padding::Padding;
use retained_ui::widget::column::Column;
use retained_ui::widget::radio::Radio;
use retained_ui::widget::row::Row;
use retained_ui::widget::rule::Rule;
use retained_ui::widget::text::Text;
use retained_ui::widget::toggler::Toggler;
use retained_ui::widget::tooltip::{Position, Tooltip};

fn hash(element: &Element<u8>) -> u64 {
    let mut hasher = Hasher::new();
    element.hash_layout(&mut hasher);
    hasher.finish()
}

#[test]
fn hasher_is_fnv_1a() {
    assert_eq!(Hasher::new().finish(), 0xcbf2_9ce4_8422_2325);
    let mut a = Hasher::new();
    a.write(b"a");
    assert_eq!(a.finish(), 0xaf63_dc4c_8601_ec8c);
    let mut foobar = Hasher::new();
    foobar.write(b"foo");
    foobar.write(b"bar");
    assert_eq!(foobar.finish(), 0x8594_4171_f739_67e8);
    let mut byte = Hasher::new();
    byte.write_u8(b'a');
    assert_eq!(byte.finish(), 0xaf63_dc4c_8601_ec8c);
}

#[test]
fn numbers_are_written_lowest_byte_first() {
    let mut number = Hasher::new();
    number.write_u16(0x6261);
    let mut bytes = Hasher::new();
    bytes.write(b"ab");
    assert_eq!(number.finish(), bytes.finish());
    let mut wide = Hasher::new();
    wide.write_u32(0x6463_6261);
    let mut four = Hasher::new();
    four.write(b"abcd");
    assert_eq!(wide.finish(), four.finish());
    let mut text = Hasher::new();
    text.write_str("ab");
    let mut marked = Hasher::new();
    marked.write(&[b'a', b'b', 0xff]);
    assert_eq!(text.finish(), marked.finish());
}

#[test]
fn parts_are_written_as_tagged_bytes() {
    let mut length = Hasher::new();
    length.write_length(Length::Units(0x0102));
    let mut bytes = Hasher::new();
    bytes.write(&[3, 2, 1]);
    assert_eq!(length.finish(), bytes.finish());
    let mut size = Hasher::new();
    size.write_size(Some(5));
    size.write_size(None);
    size.write_alignment(Alignment::End);
    size.write_length(Length::Fill);
    size.write_length(Length::Shrink);
    size.write_length(Length::FillPortion(1));
    size.write_padding(Padding { top: 1, right: 2, bottom: 3, left: 4 });
    let mut bytes = Hasher::new();
    bytes.write(&[1, 5, 0, 0, 2, 0, 2, 1, 1, 0, 1, 0, 2, 0, 3, 0, 4, 0]);
    assert_eq!(size.finish(), bytes.finish());
}

#[test]
fn text_content_counts_and_color_does_not() {
    let plain = Element::Text(Text::new("hello"));
    let red = Element::Text(Text::new("hello").color(Color::from_rgb(255, 0, 0)));
    let other = Element::Text(Text::new("hellp"));
    let large = Element::Text(Text::new("hello").size(30));
    let wide = Element::Text(Text::new("hello").width(Length::Fill));
    assert_eq!(hash(&plain), hash(&red));
    assert_ne!(hash(&plain), hash(&other));
    assert_ne!(hash(&plain), hash(&large));
    assert_ne!(hash(&plain), hash(&wide));
    let mut by_hand = Hasher::new();
    by_hand.write(&[1, b'h', b'e', b'l', b'l', b'o', 0xff, 0, 2, 2]);
    assert_eq!(hash(&plain), by_hand.finish());
}

fn tree(label: &str) -> Element<u8> {
    Element::Column(
        Column::new()
            .spacing(4)
            .push(Element::Rule(Rule::horizontal(2)))
            .push(Element::Row(
                Row::new()
                    .push(Element::Radio(Radio::new(1u8, label, None, |v| v)))
                    .push(Element::Toggler(Toggler::new(true, Some(String::from("t")), |_| 0u8))),
            ))
            .push(Element::Tooltip(Box::new(Tooltip::new(Element::Text(Text::new("x")), "tip", Position::Left)))),
    )
}

#[test]
fn equal_trees_have_equal_hashes() {
    assert_eq!(hash(&tree("a")), hash(&tree("a")));
    assert_ne!(hash(&tree("a")), hash(&tree("b")));
}

#[test]
fn order_of_children_counts() {
    let ab: Element<u8> = Element::Row(Row::new().push(Element::Text(Text::new("a"))).push(Element::Text(Text::new("b"))));
    let ba: Element<u8> = Element::Row(Row::new().push(Element::Text(Text::new("b"))).push(Element::Text(Text::new("a"))));
    let column: Element<u8> =
        Element::Column(Column::new().push(Element::Text(Text::new("a"))).push(Element::Text(Text::new("b"))));
    assert_ne!(hash(&ab), hash(&ba));
    assert_ne!(hash(&ab), hash(&column));
}

#[test]
fn widgets_hash_what_their_layout_reads() {
    let selected = Element::Radio(Radio::new(1u8, "r", Some(1u8), |v| v));
    let unselected = Element::Radio(Radio::new(1u8, "r", None, |v| v));
    assert_eq!(hash(&selected), hash(&unselected));
    let labelled: Element<u8> = Element::Toggler(Toggler::new(true, Some(String::from("t")), |_| 0u8));
    let bare: Element<u8> = Element::Toggler(Toggler::new(true, None, |_| 0u8));
    assert_ne!(hash(&labelled), hash(&bare));
    let thin: Element<u8> = Element::Rule(Rule::horizontal(1));
    let thick: Element<u8> = Element::Rule(Rule::horizontal(2));
    assert_ne!(hash(&thin), hash(&thick));
    let tipped: Element<u8> = Element::Tooltip(Box::new(Tooltip::new(Element::Text(Text::new("x")), "one", Position::Top)));
    let other_tip: Element<u8> = Element::Tooltip(Box::new(Tooltip::new(Element::Text(Text::new("x")), "two", Position::Left)));
    assert_eq!(hash(&tipped), hash(&other_tip));
    assert_ne!(hash(&tipped), hash(&Element::Text(Text::new("x"))));
}

fn radio() -> Radio<u8> {
    Radio::new(1u8, "r", None, |v| v)
}

fn toggler() -> Toggler<u8> {
    Toggler::new(true, Some(String::from("t")), |_| 0u8)
}

#[test]
fn radio_hashes_every_setting_that_shapes_its_layout() {
    let plain = hash(&Element::Radio(radio()));
    assert_ne!(plain, hash(&Element::Radio(radio().size(40))));
    assert_ne!(plain, hash(&Element::Radio(radio().width(Length::Fill))));
    assert_ne!(plain, hash(&Element::Radio(radio().spacing(3))));
    assert_ne!(plain, hash(&Element::Radio(radio().text_size(30))));
    assert_ne!(plain, hash(&Element::Radio(Radio::new(1u8, "s", None, |v| v))));
    assert_eq!(plain, hash(&Element::Radio(radio().text_color(Color::white()))));
    assert_eq!(plain, hash(&Element::Radio(Radio::new(2u8, "r", Some(2u8), |v| v))));
    let mut by_hand = Hasher::new();
    by_hand.write(&[3, b'r', 0xff, 2, 28, 0, 15, 0, 0]);
    assert_eq!(plain, by_hand.finish());
}

#[test]
fn toggler_hashes_every_setting_that_shapes_its_layout() {
    let plain = hash(&Element::Toggler(toggler()));
    assert_ne!(plain, hash(&Element::Toggler(toggler().size(40))));
    assert_ne!(plain, hash(&Element::Toggler(toggler().width(Length::Shrink))));
    assert_ne!(plain, hash(&Element::Toggler(toggler().spacing(3))));
    assert_ne!(plain, hash(&Element::Toggler(toggler().text_size(30))));
    assert_eq!(plain, hash(&Element::Toggler(Toggler::new(false, Some(String::from("t")), |_| 9u8))));
    let mut by_hand = Hasher::new();
    by_hand.write(&[4, 1, b't', 0xff, 0, 20, 0, 0, 0, 0]);
    assert_eq!(plain, by_hand.finish());
    let bare: Element<u8> = Element::Toggler(Toggler::new(true, None, |_| 0u8).text_size(7));
    let mut by_hand = Hasher::new();
    by_hand.write(&[4, 0, 0, 20, 0, 0, 0, 1, 7, 0]);
    assert_eq!(hash(&bare), by_hand.finish());
}
