//! Rectangles with unsigned integer sides: their area, and the two lines of
//! text that describe one.

pub mod decimal;
pub mod shape;
pub mod text;

pub use shape::{Extent, Rectangle};
pub use text::display_rectangle;
