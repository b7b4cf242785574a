//! The two lines of text that describe a rectangle.

use crate::decimal::{append_decimal, decimal};
use crate::shape::{Extent, Rectangle};
use vstd::prelude::*;

verus! {

/// The description of a rectangle with the given sides: one line with the
/// width and the height, one with the area, each ended by a line feed.
pub open spec fn display_text(sides: Extent) -> Seq<char> {
    "Rectangle width: "@ + decimal(sides.width) + ", height: "@ + decimal(sides.height) + "\n"@
        + "Area of rectangle: "@ + decimal(sides.area()) + "\n"@
}

/// The text to print for `rect`: its width and height, then its area.
pub fn display_rectangle(rect: &Rectangle) -> (text: String)
    requires
        rect.spec_area_fits(),
    ensures
        text@ == display_text(rect@),
{
    let mut text = String::new();
    text.append("Rectangle width: ");
    append_decimal(&mut text, rect.width());
    text.append(", height: ");
    append_decimal(&mut text, rect.height());
    text.append("\n");
    text.append("Area of rectangle: ");
    append_decimal(&mut text, rect.area());
    text.append("\n");
    assert(text@ =~= display_text(rect@));
    text
}

} // verus!
