//! Formatted-text value types: the hit-test result and the font and text
//! ordinals the formatted-text entry points take.

use vstd::prelude::*;

pub mod font_weight;
pub mod font_style;
pub mod font_stretch;
pub mod text_alignment;
pub mod text_trimming;
pub mod text_wrapping;
pub mod line_stacking_strategy;
pub mod flow_direction;

verus! {

/// Result of a formatted-text hit test.
#[derive(Copy, Clone, Debug, PartialEq)]
pub struct HitTest {
    /// Character index of the glyph under the point.
    pub index: u32,
    /// Whether the point landed inside a glyph's bounds.
    pub is_inside: bool,
    /// Whether the point landed on the glyph's trailing half.
    pub is_trailing: bool,
}

} // verus!
