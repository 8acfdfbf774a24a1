//! Rectangles: area in three shapes of argument, and containment.

use vstd::prelude::*;

verus! {

/// A rectangle measured in whole pixels.
#[derive(Clone, Copy, Debug, PartialEq, Eq, Structural)]
pub struct Rectangle {
    pub width: u32,
    pub height: u32,
}

impl Rectangle {
    /// The area, width times height.
    pub fn area(&self) -> (r: u32)
        requires
            self.width * self.height <= u32::MAX,
        ensures
            r == self.width * self.height,
    {
        self.width * self.height
    }

    /// Whether the width is non-zero.
    pub fn width(&self) -> (r: bool)
        ensures
            r == (self.width > 0),
    {
        self.width > 0
    }

    /// Whether `rect` fits strictly inside `self`, in both dimensions.
    pub fn can_hold(&self, rect: &Rectangle) -> (r: bool)
        ensures
            r == (self.width > rect.width && self.height > rect.height),
    {
        self.width > rect.width && self.height > rect.height
    }

    /// A square of the given side.
    pub fn square(size: u32) -> (r: Self)
        ensures
            r.width == size,
            r.height == size,
    {
        Self { width: size, height: size }
    }
}

/// The area of a rectangle given as two sides.
pub fn area(width: u32, height: u32) -> (r: u32)
    requires
        width * height <= u32::MAX,
    ensures
        r == width * height,
{
    width * height
}

/// The area of a rectangle given as a (width, height) pair.
pub fn area_with_tuple(dimensions: (u32, u32)) -> (r: u32)
    requires
        dimensions.0 * dimensions.1 <= u32::MAX,
    ensures
        r == dimensions.0 * dimensions.1,
{
    dimensions.0 * dimensions.1
}

/// The area of a rectangle given as a struct.
pub fn area_with_struct(rectangle: &Rectangle) -> (r: u32)
    requires
        rectangle.width * rectangle.height <= u32::MAX,
    ensures
        r == rectangle.width * rectangle.height,
{
    rectangle.width * rectangle.height
}

} // verus!
