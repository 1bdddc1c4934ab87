//! A retained-mode user interface core: geometry in whole units, a layout
//! engine, event dispatch with hit-testing, and a backend-agnostic tree of
//! drawing primitives.
//!
//! Every length and coordinate is an integer number of units. Sizes are
//! unsigned, positions are signed, and arithmetic that would leave the range of
//! its type saturates at the nearest bound.
//!
//! A frame is one pass over the widget tree for each of three steps. Layout
//! turns the widgets and the limits of the window into a tree of positioned
//! nodes. Dispatch hands an event to the widgets, which test it against their
//! nodes and queue messages for the application. Drawing turns the widgets and
//! their nodes into primitives for a renderer.

pub mod units;
pub mod point;
pub mod vector;
pub mod size;
pub mod rectangle;
pub mod padding;
pub mod length;
pub mod alignment;
pub mod color;
pub mod background;
pub mod font;
pub mod image;
pub mod svg;
pub mod text;
pub mod triangle;
pub mod mouse;
pub mod touch;
pub mod keyboard;
pub mod window;
pub mod event;
pub mod hasher;
pub mod layout;
pub mod backend;
pub mod renderer;
pub mod primitive;
pub mod direct_wgpu;
pub mod style;
pub mod widget;
pub mod element;
