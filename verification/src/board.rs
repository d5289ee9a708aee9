//! Dimensions of the display panel.

use vstd::prelude::*;

verus! {

/// Width of the panel in pixels.
pub const LCD_WIDTH: u16 = 410;

/// Height of the panel in pixels.
pub const LCD_HEIGHT: u16 = 502;

} // verus!
