//! Plain geometry.
use vstd::prelude::*;

verus! {

/// A rectangle: its top-left corner and its size.
#[derive(Debug, Clone, Copy)]
pub struct Rect {
    pub x: i32,
    pub y: i32,
    pub w: u32,
    pub h: u32,
}

impl Rect {
    pub fn new(x: i32, y: i32, w: u32, h: u32) -> (r: Self)
        ensures
            r == (Rect { x, y, w, h }),
    {
        Rect { x, y, w, h }
    }

    /// (width, height)
    pub fn size(&self) -> (s: (u32, u32))
        ensures
            s == (self.w, self.h),
    {
        (self.w, self.h)
    }

    /// (x, y)
    pub fn pos(&self) -> (p: (i32, i32))
        ensures
            p == (self.x, self.y),
    {
        (self.x, self.y)
    }

    /// (x, y, width, height)
    pub fn to_tuple(self) -> (t: (i32, i32, u32, u32))
        ensures
            t == (self.x, self.y, self.w, self.h),
    {
        (self.x, self.y, self.w, self.h)
    }
}

/// A color given by four channels.
#[derive(Debug, Clone, Copy)]
pub struct Color(u32, u32, u32, u32);

/// A triangle: three vertices, their indices, and a color.
#[derive(Debug, Clone, Copy)]
pub struct Triangle<T> {
    pub vertices: [T; 3],
    pub indices: [usize; 3],
    pub color: Color,
}

} // verus!
