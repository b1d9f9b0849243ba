//! The style bundle that layout and drawing read. Widgets never change it.

use crate::color::Color;
use crate::text::FontMetrics;
use vstd::prelude::*;

verus! {

/// The look of the widgets for one frame.
#[derive(Clone, Copy, Debug, PartialEq, Eq, Structural)]
pub struct Theme {
    pub font: FontMetrics,
    pub label_color: Color,
    pub button_text_color: Color,
    /// The fill of a button that is neither hovered nor held.
    pub button_fill_color: Color,
    pub button_border_color: Color,
    /// The fill of a button under the pointer.
    pub button_selected_fill_color: Color,
    /// The fill of a button that is held under the pointer.
    pub button_active_fill_color: Color,
    /// The space between a button's border and its text, in pixels.
    pub padding: u16,
}

} // verus!
