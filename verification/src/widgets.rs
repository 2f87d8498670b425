//! The concrete widgets: self-contained state machines built on the
//! composition tree's widget contract.

pub mod button;
pub mod checkbox;
pub mod slider;
pub mod text_input;
pub mod tabs;
pub mod container;
pub mod form_field;
pub mod label;
pub mod list_view;
pub mod modal;
pub mod panel;
pub mod radio_group;
pub mod select;
pub mod toggle;
pub mod triangle_hero;
