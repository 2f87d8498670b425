//! A retained-mode UI composition engine: a tree of stateful widgets laid out
//! with a flex-like box model, driven by a per-frame input snapshot, producing
//! bubbled semantic events. Geometry is modelled in whole device pixels.

pub mod clipboard;
pub mod events;
pub mod geometry;
pub mod input;
pub mod laws;
pub mod navigation;
pub mod numfmt;
pub mod text;
pub mod theme;
pub mod tree;
pub mod widgets;
