//! Area of a rectangle computed four ways: from loose dimensions, from a
//! pair, from a borrowed record and from a method on the record.
use vstd::prelude::*;

verus! {

/// A rectangle given by its width and height.
#[derive(Debug, Clone, Copy, PartialEq, Eq, Structural)]
pub struct Rectangle {
    pub width: u32,
    pub height: u32,
}

/// The area of a `width` by `height` rectangle.
pub open spec fn area_of(width: int, height: int) -> int {
    width * height
}

/// Whether the area of a `width` by `height` rectangle fits in a `u32`.
pub open spec fn area_fits(width: int, height: int) -> bool {
    area_of(width, height) <= u32::MAX
}

impl Rectangle {
    /// The area of this rectangle, as a mathematical integer.
    pub open spec fn spec_area(&self) -> int {
        area_of(self.width as int, self.height as int)
    }

    /// Whether `self` is strictly wider and strictly taller than `other`.
    pub open spec fn spec_can_hold(&self, other: Rectangle) -> bool {
        self.width > other.width && self.height > other.height
    }

    /// A square with both sides equal to `size`.
    pub fn square(size: u32) -> (r: Rectangle)
        ensures
            r.width == size,
            r.height == size,
    {
        Rectangle { width: size, height: size }
    }

    /// The area of this rectangle.
    pub fn area(&self) -> (r: u32)
        requires
            area_fits(self.width as int, self.height as int),
        ensures
            r == self.spec_area(),
    {
        self.width * self.height
    }

    /// Whether `self` fits strictly inside `other` on both axes; areas are
    /// not compared.
    pub fn can_hold(&self, other: &Rectangle) -> (r: bool)
        ensures
            r == self.spec_can_hold(*other),
    {
        self.width > other.width && self.height > other.height
    }
}

/// The area of a `width` by `height` rectangle.
pub fn area(width: u32, height: u32) -> (r: u32)
    requires
        area_fits(width as int, height as int),
    ensures
        r == area_of(width as int, height as int),
{
    width * height
}

/// The area of a rectangle given as the pair `(width, height)`.
pub fn area_tuple(dimensions: (u32, u32)) -> (r: u32)
    requires
        area_fits(dimensions.0 as int, dimensions.1 as int),
    ensures
        r == area_of(dimensions.0 as int, dimensions.1 as int),
{
    dimensions.0 * dimensions.1
}

/// The area of a borrowed rectangle.
pub fn area_struct(rectangle: &Rectangle) -> (r: u32)
    requires
        area_fits(rectangle.width as int, rectangle.height as int),
    ensures
        r == rectangle.spec_area(),
{
    rectangle.width * rectangle.height
}

/// For any two positive dimensions whose area fits, the loose, pair, record
/// and method forms of the area agree, and each equals the product of the
/// dimensions.
pub proof fn areas_agree(width: u32, height: u32)
    requires
        width > 0,
        height > 0,
        area_fits(width as int, height as int),
    ensures
        ({
            let rect = Rectangle { width, height };
            let pair = (width, height);
            &&& area_of(width as int, height as int) == width * height
            &&& area_of(pair.0 as int, pair.1 as int) == width * height
            &&& rect.spec_area() == width * height
        }),
{
}

} // verus!
