//! The rectangle value type and its area.

use vstd::prelude::*;

verus! {

/// The mathematical model of a rectangle: its two sides as natural numbers.
pub struct Extent {
    pub width: nat,
    pub height: nat,
}

impl Extent {
    /// The product of the two sides, without any bound.
    pub open spec fn area(self) -> nat {
        self.width * self.height
    }
}

/// A rectangle with a width and a height. A value is fixed once it is built.
#[derive(Clone, Copy, Debug, PartialEq, Eq, Structural)]
pub struct Rectangle {
    width: u32,
    height: u32,
}

impl View for Rectangle {
    type V = Extent;

    closed spec fn view(&self) -> Extent {
        Extent { width: self.width as nat, height: self.height as nat }
    }
}

impl Rectangle {
    /// The area of the rectangle as a natural number.
    pub open spec fn spec_area(&self) -> nat {
        self@.area()
    }

    /// Whether the area can be held in a `u32`.
    pub open spec fn spec_area_fits(&self) -> bool {
        self.spec_area() <= u32::MAX
    }

    /// Builds the rectangle with the given sides. Every pair is accepted.
    pub fn new(width: u32, height: u32) -> (r: Rectangle)
        ensures
            r@ == (Extent { width: width as nat, height: height as nat }),
    {
        Rectangle { width, height }
    }

    /// The width the rectangle was built with.
    pub fn width(&self) -> (w: u32)
        ensures
            w == self@.width,
    {
        self.width
    }

    /// The height the rectangle was built with.
    pub fn height(&self) -> (h: u32)
        ensures
            h == self@.height,
    {
        self.height
    }

    /// Tells whether `area` may be called: whether width times height fits in
    /// a `u32`.
    #[verifier::when_used_as_spec(spec_area_fits)]
    pub fn area_fits(&self) -> (fits: bool)
        ensures
            fits == self.spec_area_fits(),
    {
        self.width.checked_mul(self.height).is_some()
    }

    /// Width times height.
    pub fn area(&self) -> (a: u32)
        requires
            self.spec_area_fits(),
        ensures
            a == self.spec_area(),
    {
        self.width * self.height
    }
}

/// The sides of every rectangle lie in the range of `u32`.
pub proof fn lemma_sides_in_range(r: Rectangle)
    ensures
        r@.width <= u32::MAX,
        r@.height <= u32::MAX,
{
}

/// A rectangle built from `width` and `height` whose product is at most
/// `u32::MAX` has an area that fits, and that area is exactly the product.
pub proof fn lemma_area_is_product(r: Rectangle, width: u32, height: u32)
    requires
        r@ == (Extent { width: width as nat, height: height as nat }),
        width * height <= u32::MAX,
    ensures
        r.spec_area_fits(),
        r.spec_area() == width * height,
{
}

/// A rectangle with a side of length zero has area zero, whatever the other
/// side is.
pub proof fn lemma_zero_side_zero_area(r: Rectangle)
    requires
        r@.width == 0 || r@.height == 0,
    ensures
        r.spec_area_fits(),
        r.spec_area() == 0,
{
}

/// Building is a function of the two sides: two rectangles built from the same
/// width and height are equal, and so are their areas.
pub proof fn lemma_same_sides_same_rectangle(a: Rectangle, b: Rectangle, width: u32, height: u32)
    requires
        a@ == (Extent { width: width as nat, height: height as nat }),
        b@ == (Extent { width: width as nat, height: height as nat }),
    ensures
        a == b,
        a.spec_area() == b.spec_area(),
        a.spec_area_fits() == b.spec_area_fits(),
{
}

} // verus!
