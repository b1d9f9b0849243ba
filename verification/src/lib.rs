//! The per-frame update, composition and render cycle of an immediate-mode
//! graphical application, with the decisions of every frame verified.
//!
//! A frame consumes one batch of input events, updates the session state,
//! rebuilds the widget tree from that state, lays it out, and hands back the
//! ordered list of operations that the caller performs on its surface.

pub mod color;
pub mod decimal;
pub mod demo;
pub mod draw2d;
pub mod event;
pub mod frame;
pub mod geometry;
pub mod gui;
pub mod interaction;
pub mod keys;
pub mod layout;
pub mod paint;
pub mod text;
pub mod theme;
pub mod widgets;
