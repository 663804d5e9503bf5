//! Places and rectangles on the screen, in thousandths of a point.
use vstd::prelude::*;
use crate::dock::column::{DockSide, clamped};

verus! {

/// A place on the screen, or a width and a height.
#[derive(Clone, Copy, Debug, PartialEq, Eq, Structural)]
pub struct Point {
    pub x: i32,
    pub y: i32,
}

/// A rectangle by its edges.
#[derive(Clone, Copy, Debug, PartialEq, Eq, Structural)]
pub struct Rect {
    pub left: i32,
    pub top: i32,
    pub right: i32,
    pub bottom: i32,
}

/// The coordinate nearest to `x` that can be held.
pub open spec fn near(x: int) -> i32 {
    clamped(x, i32::MIN as int, i32::MAX as int) as i32
}

pub fn near_i32(x: i64) -> (r: i32)
    ensures
        r == near(x as int),
{
    if x < i32::MIN as i64 {
        i32::MIN
    } else if x > i32::MAX as i64 {
        i32::MAX
    } else {
        x as i32
    }
}

impl Rect {
    /// Whether `p` is in the rectangle grown by `dx` and `dy` on each side,
    /// edges included.
    pub open spec fn reaches(self, p: Point, dx: int, dy: int) -> bool {
        &&& self.left - dx <= p.x <= self.right + dx
        &&& self.top - dy <= p.y <= self.bottom + dy
    }

    pub fn within(&self, p: Point, dx: i32, dy: i32) -> (r: bool)
        ensures
            r == self.reaches(p, dx as int, dy as int),
    {
        let x: i64 = p.x as i64;
        let y: i64 = p.y as i64;
        self.left as i64 - dx as i64 <= x && x <= self.right as i64 + dx as i64 && self.top as i64
            - dy as i64 <= y && y <= self.bottom as i64 + dy as i64
    }

    /// The extent across a strip on the given side.
    pub open spec fn across(self, side: DockSide) -> int {
        if side.vertical() {
            self.right - self.left
        } else {
            self.bottom - self.top
        }
    }

    pub fn extent(&self, side: DockSide) -> (r: i64)
        ensures
            r == self.across(side),
    {
        if side.is_vertical() {
            self.right as i64 - self.left as i64
        } else {
            self.bottom as i64 - self.top as i64
        }
    }

    /// How far `p` is inside of the edge on the given side.
    pub open spec fn depth(self, p: Point, side: DockSide) -> int {
        match side {
            DockSide::Left => p.x - self.left,
            DockSide::Right => self.right - p.x,
            DockSide::Top => p.y - self.top,
            DockSide::Bottom => self.bottom - p.y,
        }
    }

    pub fn depth_of(&self, p: Point, side: DockSide) -> (r: i64)
        ensures
            r == self.depth(p, side),
    {
        match side {
            DockSide::Left => p.x as i64 - self.left as i64,
            DockSide::Right => self.right as i64 - p.x as i64,
            DockSide::Top => p.y as i64 - self.top as i64,
            DockSide::Bottom => self.bottom as i64 - p.y as i64,
        }
    }
}

/// The side across from this one.
pub open spec fn opposite(side: DockSide) -> DockSide {
    match side {
        DockSide::Left => DockSide::Right,
        DockSide::Right => DockSide::Left,
        DockSide::Top => DockSide::Bottom,
        DockSide::Bottom => DockSide::Top,
    }
}

pub fn opposite_side(side: DockSide) -> (r: DockSide)
    ensures
        r == opposite(side),
{
    match side {
        DockSide::Left => DockSide::Right,
        DockSide::Right => DockSide::Left,
        DockSide::Top => DockSide::Bottom,
        DockSide::Bottom => DockSide::Top,
    }
}

} // verus!
