//! The backend-agnostic tree of drawing instructions.
use std::sync::Arc;
use vstd::prelude::*;

use crate::alignment;
use crate::backend::Backend;
use crate::background::Background;
use crate::color::Color;
use crate::font::Font;
use crate::image;
use crate::rectangle::Rectangle;
use crate::size::Size;
use crate::svg;
use crate::triangle::{Mesh2D, MeshView};
use crate::vector::{Offset, Vector};

verus! {

broadcast use vstd::std_specs::vec::group_vec_axioms;

/// What a tree of primitives needs to know of a backend: the type of the
/// rendering jobs that only that backend can execute.
pub trait PrimitiveBackend {
    /// A rendering job that only this backend can execute.
    type CustomRenderPrimitive;
}

impl<B: Backend> PrimitiveBackend for B {
    type CustomRenderPrimitive = B::CustomRenderPrimitive;
}

impl PrimitiveBackend for () {
    type CustomRenderPrimitive = ();
}

/// A rendering primitive.
#[allow(inconsistent_fields)]
pub enum Primitive<B: PrimitiveBackend> {
    /// An empty primitive.
    Empty,
    /// A group of primitives, painted first to last.
    Group {
        /// The primitives of the group.
        primitives: Vec<Primitive<B>>,
    },
    /// A text primitive.
    Text {
        /// The contents of the text.
        content: String,
        /// The bounds of the text.
        bounds: Rectangle,
        /// The color of the text.
        color: Color,
        /// The size of the text.
        size: u16,
        /// The font of the text.
        font: Font,
        /// The horizontal alignment of the text.
        horizontal_alignment: alignment::Horizontal,
        /// The vertical alignment of the text.
        vertical_alignment: alignment::Vertical,
    },
    /// A quad primitive.
    Quad {
        /// The bounds of the quad.
        bounds: Rectangle,
        /// The background of the quad.
        background: Background,
        /// The border radius of the quad.
        border_radius: u32,
        /// The border width of the quad.
        border_width: u32,
        /// The border color of the quad.
        border_color: Color,
    },
    /// An image primitive.
    Image {
        /// The handle of the image.
        handle: image::Handle,
        /// The bounds of the image.
        bounds: Rectangle,
    },
    /// An SVG primitive.
    Svg {
        /// The handle of the SVG document.
        handle: svg::Handle,
        /// The bounds of the viewport.
        bounds: Rectangle,
    },
    /// A clip primitive: the whole content is confined to the bounds.
    Clip {
        /// The bounds of the clip.
        bounds: Rectangle,
        /// The offset transformation of the clip.
        offset: Offset,
        /// The content of the clip.
        content: Box<Primitive<B>>,
    },
    /// A primitive that moves its whole content.
    Translate {
        /// The translation vector.
        translation: Vector,
        /// The primitive to translate.
        content: Box<Primitive<B>>,
    },
    /// A mesh of triangles.
    Mesh2D {
        /// The vertex and index buffers of the mesh.
        buffers: Mesh2D,
        /// The size of the drawable region of the mesh; what falls out of it
        /// is clipped.
        size: Size,
    },
    /// A cached primitive, shared by whoever holds it.
    Cached {
        /// The cached primitive.
        cache: Arc<Primitive<B>>,
    },
    /// A rendering job specific to the backend.
    Custom(B::CustomRenderPrimitive),
}

/// The mathematical model of a [`Primitive`]: the same tree, over sequences.
/// The payload of a backend-specific job is not part of the model.
#[verifier::ext_equal]
#[allow(inconsistent_fields)]
pub enum Scene {
    /// An empty primitive.
    Empty,
    /// A group of primitives, painted first to last.
    Group { primitives: Seq<Scene> },
    /// A text primitive.
    Text {
        content: Seq<char>,
        bounds: Rectangle,
        color: Color,
        size: u16,
        font: Font,
        horizontal_alignment: alignment::Horizontal,
        vertical_alignment: alignment::Vertical,
    },
    /// A quad primitive.
    Quad {
        bounds: Rectangle,
        background: Background,
        border_radius: u32,
        border_width: u32,
        border_color: Color,
    },
    /// An image primitive.
    Image { handle: image::Handle, bounds: Rectangle },
    /// An SVG primitive.
    Svg { handle: svg::Handle, bounds: Rectangle },
    /// A clip primitive.
    Clip { bounds: Rectangle, offset: Offset, content: Box<Scene> },
    /// A primitive that moves its whole content.
    Translate { translation: Vector, content: Box<Scene> },
    /// A mesh of triangles.
    Mesh2D { buffers: MeshView, size: Size },
    /// A cached primitive.
    Cached { cache: Box<Scene> },
    /// A rendering job specific to a backend.
    Custom,
}

impl Scene {
    /// Whether the scene holds no backend-specific job, at any depth.
    pub open spec fn custom_free(self) -> bool
        decreases self,
    {
        match self {
            Scene::Group { primitives } => forall|i: int|
                0 <= i < primitives.len() ==> (#[trigger] primitives[i]).custom_free(),
            Scene::Clip { content, .. } => content.custom_free(),
            Scene::Translate { content, .. } => content.custom_free(),
            Scene::Cached { cache } => cache.custom_free(),
            Scene::Custom => false,
            _ => true,
        }
    }
}

impl<B: PrimitiveBackend> Primitive<B> {
    /// The model of this primitive.
    pub open spec fn scene(&self) -> Scene
        decreases self,
    {
        match self {
            Primitive::Empty => Scene::Empty,
            Primitive::Group { primitives } => Scene::Group {
                primitives: Seq::new(
                    primitives.len() as nat,
                    |i: int|
                        if 0 <= i < primitives.len() {
                            primitives[i].scene()
                        } else {
                            arbitrary()
                        },
                ),
            },
            Primitive::Text {
                content,
                bounds,
                color,
                size,
                font,
                horizontal_alignment,
                vertical_alignment,
            } => Scene::Text {
                content: content@,
                bounds: *bounds,
                color: *color,
                size: *size,
                font: *font,
                horizontal_alignment: *horizontal_alignment,
                vertical_alignment: *vertical_alignment,
            },
            Primitive::Quad { bounds, background, border_radius, border_width, border_color } => Scene::Quad {
                bounds: *bounds,
                background: *background,
                border_radius: *border_radius,
                border_width: *border_width,
                border_color: *border_color,
            },
            Primitive::Image { handle, bounds } => Scene::Image { handle: *handle, bounds: *bounds },
            Primitive::Svg { handle, bounds } => Scene::Svg { handle: *handle, bounds: *bounds },
            Primitive::Clip { bounds, offset, content } => Scene::Clip {
                bounds: *bounds,
                offset: *offset,
                content: Box::new(content.scene()),
            },
            Primitive::Translate { translation, content } => Scene::Translate {
                translation: *translation,
                content: Box::new(content.scene()),
            },
            Primitive::Mesh2D { buffers, size } => Scene::Mesh2D { buffers: buffers@, size: *size },
            Primitive::Cached { cache } => Scene::Cached { cache: Box::new(cache.scene()) },
            Primitive::Custom(_) => Scene::Custom,
        }
    }
}

impl<B: PrimitiveBackend> Primitive<B> {
    /// Whether the primitive holds a backend-specific job, at any depth.
    #[verifier::loop_isolation(false)]
    pub fn contains_custom(&self) -> (found: bool)
        ensures
            found == !self@.custom_free(),
        decreases self,
    {
        match self {
            Primitive::Group { primitives } => {
                let mut i: usize = 0;
                while i < primitives.len()
                    invariant
                        i <= primitives.len(),
                        forall|j: int| 0 <= j < i ==> (#[trigger] primitives@[j]).scene().custom_free(),
                    decreases primitives.len() - i,
                {
                    if primitives[i].contains_custom() {
                        assert(self@->primitives[i as int] == primitives@[i as int].scene());
                        return true;
                    }
                    i += 1;
                }
                assert forall|j: int| 0 <= j < self@->primitives.len() implies (
                #[trigger] self@->primitives[j]).custom_free() by {
                    assert(primitives@[j].scene().custom_free());
                }
                false
            },
            Primitive::Clip { content, .. } => content.contains_custom(),
            Primitive::Translate { content, .. } => content.contains_custom(),
            Primitive::Cached { cache } => cache.contains_custom(),
            Primitive::Custom(_) => true,
            _ => false,
        }
    }

    /// Builds, for this backend, the primitive that `from` is for another
    /// one. Every variant but a backend-specific job carries over with all its
    /// fields, groups in their order, nested content converted in turn.
    #[verifier::loop_isolation(false)]
    pub fn rebuild<A: PrimitiveBackend>(from: &Primitive<A>) -> (to: Primitive<B>)
        requires
            from@.custom_free(),
        ensures
            to@ == from@,
        decreases from,
    {
        match from {
            Primitive::Empty => Primitive::Empty,
            Primitive::Group { primitives } => {
                let mut converted: Vec<Primitive<B>> = Vec::new();
                let mut i: usize = 0;
                while i < primitives.len()
                    invariant
                        i <= primitives.len(),
                        converted@.len() == i,
                        forall|j: int| 0 <= j < i ==> (#[trigger] converted@[j]).scene() == primitives@[j].scene(),
                    decreases primitives.len() - i,
                {
                    assert(from@->primitives[i as int] == primitives@[i as int].scene());
                    assert(from@->primitives[i as int].custom_free());
                    let child = Primitive::rebuild(&primitives[i]);
                    converted.push(child);
                    i += 1;
                }
                let to = Primitive::Group { primitives: converted };
                assert(to@->primitives =~= from@->primitives);
                to
            },
            Primitive::Text {
                content,
                bounds,
                color,
                size,
                font,
                horizontal_alignment,
                vertical_alignment,
            } => Primitive::Text {
                content: content.clone(),
                bounds: *bounds,
                color: *color,
                size: *size,
                font: *font,
                horizontal_alignment: *horizontal_alignment,
                vertical_alignment: *vertical_alignment,
            },
            Primitive::Quad { bounds, background, border_radius, border_width, border_color } => Primitive::Quad {
                bounds: *bounds,
                background: *background,
                border_radius: *border_radius,
                border_width: *border_width,
                border_color: *border_color,
            },
            Primitive::Image { handle, bounds } => Primitive::Image { handle: *handle, bounds: *bounds },
            Primitive::Svg { handle, bounds } => Primitive::Svg { handle: *handle, bounds: *bounds },
            Primitive::Clip { bounds, offset, content } => Primitive::Clip {
                bounds: *bounds,
                offset: *offset,
                content: Box::new(Primitive::rebuild(&**content)),
            },
            Primitive::Translate { translation, content } => Primitive::Translate {
                translation: *translation,
                content: Box::new(Primitive::rebuild(&**content)),
            },
            Primitive::Mesh2D { buffers, size } => Primitive::Mesh2D { buffers: buffers.duplicate(), size: *size },
            Primitive::Cached { cache } => Primitive::Cached { cache: Arc::new(Primitive::rebuild(&**cache)) },
            Primitive::Custom(_) => {
                proof {
                    assert(false);
                }
                Primitive::Empty
            },
        }
    }

    /// Turns a backend-erased primitive into one for this backend. The tree
    /// keeps its shape and every field; a tree that holds a backend-specific
    /// job cannot be converted, and is left out by the precondition.
    pub fn from(from: Primitive<()>) -> (to: Primitive<B>)
        requires
            from@.custom_free(),
        ensures
            to@ == from@,
    {
        Primitive::rebuild(&from)
    }

    /// Erases the backend from a primitive. The tree keeps its shape and every
    /// field, so that converting back gives the same scene; a tree that holds a
    /// backend-specific job cannot be erased, and is left out by the
    /// precondition.
    pub fn erase(self) -> (to: Primitive<()>)
        requires
            self@.custom_free(),
        ensures
            to@ == self@,
    {
        Primitive::rebuild(&self)
    }

    /// Turns a backend-erased primitive into one for this backend, where that
    /// can be done: `None` exactly when the tree holds a backend-specific job.
    pub fn try_from(from: Primitive<()>) -> (to: Option<Primitive<B>>)
        ensures
            to is Some <==> from@.custom_free(),
            to matches Some(p) ==> p@ == from@,
    {
        if from.contains_custom() {
            None
        } else {
            Some(Primitive::rebuild(&from))
        }
    }
}

/// A tree that holds no backend-specific job survives the way to another
/// backend and back: a primitive `typed` that has the scene of `erased`, as
/// [`Primitive::from`] gives it, and a primitive `back` that has the scene of
/// `typed`, as [`Primitive::erase`] gives it, make `back` have the scene that
/// `erased` had, with no job in either.
pub proof fn lemma_round_trip<A: PrimitiveBackend, B: PrimitiveBackend>(
    erased: Primitive<A>,
    typed: Primitive<B>,
    back: Primitive<A>,
)
    requires
        erased@.custom_free(),
        typed@ == erased@,
        back@ == typed@,
    ensures
        back@ == erased@,
        typed@.custom_free(),
        back@.custom_free(),
{
}

/// The models of `primitives`, in order.
pub open spec fn scenes<B: PrimitiveBackend>(primitives: Seq<Primitive<B>>) -> Seq<Scene> {
    Seq::new(primitives.len(), |i: int| primitives[i]@)
}

/// The group of the given primitives, painted first to last.
pub fn group<B: PrimitiveBackend>(primitives: Vec<Primitive<B>>) -> (primitive: Primitive<B>)
    ensures
        primitive@ == (Scene::Group { primitives: scenes(primitives@) }),
{
    let ghost models = scenes(primitives@);
    let primitive = Primitive::Group { primitives };
    assert(primitive@->primitives =~= models);
    primitive
}

impl<B: PrimitiveBackend> Default for Primitive<B> {
    fn default() -> (p: Primitive<B>)
        ensures
            p@ == Scene::Empty,
    {
        Primitive::Empty
    }
}

impl<B: PrimitiveBackend> View for Primitive<B> {
    type V = Scene;

    open spec fn view(&self) -> Scene {
        self.scene()
    }
}

} // verus!
