//! Small geometric types: an axis-aligned rectangle and a generic point.

use vstd::prelude::*;

verus! {

/// An axis-aligned rectangle, measured in pixels.
#[derive(Debug, Clone, Copy, PartialEq, Eq)]
pub struct Rectangle {
    pub width: u32,
    pub height: u32,
}

impl Rectangle {
    /// Builds a rectangle from its width and height.
    pub fn new(w: u32, h: u32) -> (r: Rectangle)
        ensures
            r.width == w,
            r.height == h,
    {
        Rectangle { width: w, height: h }
    }

    /// The rectangle's area.
    pub fn area(&self) -> (r: u32)
        requires
            self.width * self.height <= u32::MAX,
        ensures
            r == self.width * self.height,
    {
        self.width * self.height
    }

    /// Whether `other` fits strictly inside `self` in both dimensions.
    pub fn can_hold(&self, other: &Rectangle) -> (r: bool)
        ensures
            r == (self.width > other.width && self.height > other.height),
    {
        self.width > other.width && self.height > other.height
    }
}

/// A point with one coordinate type for both axes.
#[derive(Debug, Clone, Copy, PartialEq, Eq)]
pub struct Point<T> {
    pub x: T,
    pub y: T,
}

impl<T> Point<T> {
    /// Builds a point from its coordinates.
    pub fn new(x: T, y: T) -> (r: Self)
        ensures
            r.x == x,
            r.y == y,
    {
        Point { x, y }
    }
}

} // verus!
