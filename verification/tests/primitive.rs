use std::sync::Arc;

use retained_ui::alignment::{Horizontal, Vertical};
use retained_ui::background::Background;
use retained_ui::backend::Backend;
use retained_ui::color::Color;
use retained_ui::font::Font;
use retained_ui::image;
use retained_ui::point::Point;
use retained_ui::primitive::{group, Primitive};
use retained_ui::rectangle::Rectangle;
use retained_ui::size::Size;
use retained_ui::svg;
use retained_ui::triangle::{Mesh2D, Vertex2D};
use retained_ui::vector::{Offset, Vector};

#[derive(Debug)]
struct Gpu;

impl Backend for Gpu {
    type CustomRenderPrimitive = u32;
}

fn bounds() -> Rectangle {
    Rectangle { x: 1, y: 2, width: 3, height: 4 }
}

fn text() -> Primitive<()> {
    Primitive::Text {
        content: String::from("hello"),
        bounds: bounds(),
        color: Color::from_rgb(1, 2, 3),
        size: 17,
        font: Font::External { name: "mono", bytes: &[1, 2, 3] },
        horizontal_alignment: Horizontal::Center,
        vertical_alignment: Vertical::Bottom,
    }
}

fn quad() -> Primitive<()> {
    Primitive::Quad {
        bounds: bounds(),
        background: Background::Color(Color::white()),
        border_radius: 5,
        border_width: 6,
        border_color: Color::black(),
    }
}

fn mesh() -> Primitive<()> {
    Primitive::Mesh2D {
        buffers: Mesh2D {
            vertices: vec![
                Vertex2D { position: Point::new(0, 0), color: Color::black() },
                Vertex2D { position: Point::new(1, 0), color: Color::white() },
                Vertex2D { position: Point::new(0, 1), color: Color::transparent() },
            ],
            indices: vec![0, 1, 2],
        },
        size: Size::new(9, 9),
    }
}

fn scene() -> Primitive<()> {
    group(vec![
        Primitive::Empty,
        text(),
        quad(),
        Primitive::Image { handle: image::Handle::new(7), bounds: bounds() },
        Primitive::Svg { handle: svg::Handle::new(8), bounds: bounds() },
        Primitive::Clip { bounds: bounds(), offset: Offset::new(3, 4), content: Box::new(group(vec![quad(), text()])) },
        Primitive::Translate { translation: Vector::new(-1, 1), content: Box::new(mesh()) },
        Primitive::Cached { cache: Arc::new(group(vec![text()])) },
    ])
}

fn same<A, B>(a: &Primitive<A>, b: &Primitive<B>) -> bool
where
    A: retained_ui::primitive::PrimitiveBackend,
    B: retained_ui::primitive::PrimitiveBackend,
{
    match (a, b) {
        (Primitive::Empty, Primitive::Empty) => true,
        (Primitive::Group { primitives: x }, Primitive::Group { primitives: y }) => {
            x.len() == y.len() && x.iter().zip(y.iter()).all(|(p, q)| same(p, q))
        }
        (
            Primitive::Text {
                content: c1,
                bounds: b1,
                color: k1,
                size: s1,
                font: f1,
                horizontal_alignment: h1,
                vertical_alignment: v1,
            },
            Primitive::Text {
                content: c2,
                bounds: b2,
                color: k2,
                size: s2,
                font: f2,
                horizontal_alignment: h2,
                vertical_alignment: v2,
            },
        ) => {
            let fonts = match (f1, f2) {
                (Font::Default, Font::Default) => true,
                (Font::External { name: n1, bytes: y1 }, Font::External { name: n2, bytes: y2 }) => {
                    n1 == n2 && y1 == y2
                }
                _ => false,
            };
            c1 == c2 && b1 == b2 && k1 == k2 && s1 == s2 && fonts && h1 == h2 && v1 == v2
        }
        (
            Primitive::Quad { bounds: b1, background: g1, border_radius: r1, border_width: w1, border_color: c1 },
            Primitive::Quad { bounds: b2, background: g2, border_radius: r2, border_width: w2, border_color: c2 },
        ) => b1 == b2 && g1 == g2 && r1 == r2 && w1 == w2 && c1 == c2,
        (Primitive::Image { handle: h1, bounds: b1 }, Primitive::Image { handle: h2, bounds: b2 }) => {
            h1 == h2 && b1 == b2
        }
        (Primitive::Svg { handle: h1, bounds: b1 }, Primitive::Svg { handle: h2, bounds: b2 }) => {
            h1 == h2 && b1 == b2
        }
        (
            Primitive::Clip { bounds: b1, offset: o1, content: c1 },
            Primitive::Clip { bounds: b2, offset: o2, content: c2 },
        ) => b1 == b2 && o1 == o2 && same(c1, c2),
        (
            Primitive::Translate { translation: t1, content: c1 },
            Primitive::Translate { translation: t2, content: c2 },
        ) => t1 == t2 && same(c1, c2),
        (Primitive::Mesh2D { buffers: m1, size: s1 }, Primitive::Mesh2D { buffers: m2, size: s2 }) => {
            m1.vertices == m2.vertices && m1.indices == m2.indices && s1 == s2
        }
        (Primitive::Cached { cache: c1 }, Primitive::Cached { cache: c2 }) => same(c1, c2),
        _ => false,
    }
}

#[test]
fn conversion_keeps_every_variant() {
    let typed: Primitive<Gpu> = Primitive::from(scene());
    assert!(same(&scene(), &typed));
    assert!(!typed.contains_custom());
}

#[test]
fn round_trip_is_lossless() {
    let typed: Primitive<Gpu> = Primitive::from(scene());
    let back: Primitive<()> = typed.erase();
    assert!(same(&scene(), &back));
    let again: Primitive<Gpu> = Primitive::from(back);
    assert!(same(&scene(), &again));
}

#[test]
fn conversion_does_not_hand_its_argument_shape_back_changed() {
    let other = group(vec![quad()]);
    let typed: Primitive<Gpu> = Primitive::from(scene());
    assert!(!same(&other, &typed));
}

#[test]
fn custom_payloads_are_found_at_any_depth() {
    let deep: Primitive<Gpu> = group(vec![
        Primitive::Empty,
        Primitive::Clip {
            bounds: bounds(),
            offset: Offset::new(0, 0),
            content: Box::new(Primitive::Cached {
                cache: Arc::new(Primitive::Translate {
                    translation: Vector::new(0, 0),
                    content: Box::new(group(vec![Primitive::Custom(5)])),
                }),
            }),
        },
    ]);
    assert!(deep.contains_custom());
    let shallow: Primitive<Gpu> = Primitive::Custom(1);
    assert!(shallow.contains_custom());
    let none: Primitive<Gpu> = group(vec![]);
    assert!(!none.contains_custom());
}

#[test]
fn custom_payloads_cannot_be_converted() {
    let erased_custom: Primitive<()> = group(vec![quad(), Primitive::Custom(())]);
    assert!(erased_custom.contains_custom());
    let converted: Option<Primitive<Gpu>> = Primitive::try_from(erased_custom);
    assert!(converted.is_none());
    let fine: Option<Primitive<Gpu>> = Primitive::try_from(scene());
    assert!(same(&scene(), &fine.unwrap()));
}

#[test]
fn default_primitive_is_empty() {
    let p: Primitive<Gpu> = Default::default();
    assert!(matches!(p, Primitive::Empty));
}

#[test]
fn rebuilding_copies_the_tree() {
    let original = scene();
    let copy: Primitive<()> = Primitive::rebuild(&original);
    assert!(same(&original, &copy));
    let m = Mesh2D { vertices: vec![Vertex2D { position: Point::new(1, 2), color: Color::white() }], indices: vec![0, 0, 0] };
    let d = m.duplicate();
    assert_eq!(d.vertices, m.vertices);
    assert_eq!(d.indices, m.indices);
}
