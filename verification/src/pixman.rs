use vstd::prelude::*;

verus! {

/// pixman's region data header (opaque here).
#[derive(Debug, Clone, Copy, PartialEq, Eq, Structural)]
pub struct pixman_region32_data {}

/// A pixman box: corners `(x1, y1)` (inclusive) and `(x2, y2)` (exclusive).
#[derive(Debug, Clone, Copy, PartialEq, Eq, Structural)]
pub struct pixman_box32 {
    pub x1: i32,
    pub y1: i32,
    pub x2: i32,
    pub y2: i32,
}

/// A pixman rectangle: origin and size.
#[derive(Debug, Clone, Copy, PartialEq, Eq, Structural)]
pub struct pixman_rectangle32 {
    pub x: i32,
    pub y: i32,
    pub width: u32,
    pub height: u32,
}

} // verus!
