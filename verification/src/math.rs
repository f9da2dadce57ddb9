//! Rectangles and the corner that coordinates are measured from.

use vstd::prelude::*;

verus! {

#[derive(Debug, Copy, Clone, PartialEq, Eq, Structural)]
pub enum Origin {
    BottomLeft,
    TopLeft,
}

impl Default for Origin {
    fn default() -> (origin: Self)
        ensures
            origin == Origin::TopLeft,
    {
        Origin::TopLeft
    }
}

#[derive(Debug, Copy, Clone, PartialEq, Eq)]
pub struct Rect<T> {
    pub x: T,
    pub y: T,
    pub width: T,
    pub height: T,
}

pub type URect = Rect<u32>;

pub type IRect = Rect<i32>;

impl<T> Rect<T> {
    pub fn new(x: T, y: T, width: T, height: T) -> (rect: Self)
        ensures
            rect == (Rect { x, y, width, height }),
    {
        Self { x, y, width, height }
    }
}

impl Rect<u32> {
    /// The rectangle between two corners. The end may not lie before the
    /// start.
    pub fn with_points(start: (u32, u32), end: (u32, u32)) -> (rect: Self)
        requires
            start.0 <= end.0,
            start.1 <= end.1,
        ensures
            rect == (Rect {
                x: start.0,
                y: start.1,
                width: (end.0 - start.0) as u32,
                height: (end.1 - start.1) as u32,
            }),
    {
        Self { x: start.0, y: start.1, width: end.0 - start.0, height: end.1 - start.1 }
    }

    /// The rectangle with nothing in it, at the origin.
    pub fn zero() -> (rect: Self)
        ensures
            rect == (Rect { x: 0u32, y: 0u32, width: 0u32, height: 0u32 }),
    {
        Self { x: 0, y: 0, width: 0, height: 0 }
    }
}

impl Rect<i32> {
    /// The rectangle between two corners. The differences of the corners
    /// must be numbers of the type.
    pub fn with_points(start: (i32, i32), end: (i32, i32)) -> (rect: Self)
        requires
            i32::MIN <= end.0 - start.0 <= i32::MAX,
            i32::MIN <= end.1 - start.1 <= i32::MAX,
        ensures
            rect == (Rect {
                x: start.0,
                y: start.1,
                width: (end.0 - start.0) as i32,
                height: (end.1 - start.1) as i32,
            }),
    {
        Self { x: start.0, y: start.1, width: end.0 - start.0, height: end.1 - start.1 }
    }
}

} // verus!
