//! Axis-aligned rectangles and the `MaybeAlive` marker used by the collision
//! pipeline. Coordinates are in milliunits: one thousandth of a logical pixel.

use vstd::prelude::*;

verus! {

/// Largest coordinate magnitude the geometry carries. Keeping every
/// rectangle inside this bound keeps all sums of two coordinates inside
/// `i64` with a wide margin.
pub const COORD_LIMIT: i64 = 0x100_0000_0000;

/// Largest output-surface extent the simulation accepts, in milliunits
/// (about sixteen thousand logical pixels).
pub const SCREEN_LIMIT: i64 = 0x100_0000;

/// Longest tick the simulation accepts, in milliseconds.
pub const MAX_ELAPSED: i64 = 5000;

/// Floor division of a non-negative value by a positive one.
///
/// Signed division is avoided in executable code; the quotient of two
/// non-negative `i64` values is computed through `u64`, where division
/// agrees with the mathematical floor.
pub fn div_units(a: i64, b: i64) -> (q: i64)
    requires
        0 <= a,
        1 <= b,
    ensures
        q == a as int / b as int,
        0 <= q <= a,
{
    ((a as u64) / (b as u64)) as i64
}

/// An axis-aligned box in milliunits. Width and height are never negative.
#[derive(Clone, Copy, Debug, PartialEq, Eq, Structural)]
pub struct Rectangle {
    pub x: i64,
    pub y: i64,
    pub w: i64,
    pub h: i64,
}

impl Rectangle {
    /// Well-formedness: non-negative extent, and all coordinates small
    /// enough that sums of any two stay far from the ends of `i64`.
    pub open spec fn valid(self) -> bool {
        &&& 0 <= self.w <= COORD_LIMIT
        &&& 0 <= self.h <= COORD_LIMIT
        &&& -COORD_LIMIT <= self.x <= COORD_LIMIT
        &&& -COORD_LIMIT <= self.y <= COORD_LIMIT
    }

    /// `self` fully encloses `other`.
    pub open spec fn spec_contains(self, other: Rectangle) -> bool {
        &&& self.x <= other.x
        &&& other.x + other.w <= self.x + self.w
        &&& self.y <= other.y
        &&& other.y + other.h <= self.y + self.h
    }

    /// Half-open interval intersection on both axes.
    pub open spec fn spec_overlaps(self, other: Rectangle) -> bool {
        &&& self.x < other.x + other.w
        &&& other.x < self.x + self.w
        &&& self.y < other.y + other.h
        &&& other.y < self.y + self.h
    }

    /// Where one axis of a rectangle of extent `w` at `x` lands when pushed
    /// inside the axis interval `[px, px + pw)`.
    pub open spec fn spec_clamp_axis(x: int, w: int, px: int, pw: int) -> int {
        if x < px {
            px
        } else if x + w >= px + pw {
            px + pw - w
        } else {
            x
        }
    }

    /// The rectangle `self` translated so that it lies within `parent`, or
    /// `None` when `self` exceeds `parent`'s extent on either axis.
    pub open spec fn spec_move_inside(self, parent: Rectangle) -> Option<Rectangle> {
        if self.w <= parent.w && self.h <= parent.h {
            Some(
                Rectangle {
                    x: Self::spec_clamp_axis(self.x as int, self.w as int, parent.x as int, parent.w as int) as i64,
                    y: Self::spec_clamp_axis(self.y as int, self.h as int, parent.y as int, parent.h as int) as i64,
                    w: self.w,
                    h: self.h,
                },
            )
        } else {
            None
        }
    }

    /// A rectangle of the given size with its origin at zero.
    pub fn with_size(w: i64, h: i64) -> (r: Rectangle)
        requires
            0 <= w <= COORD_LIMIT,
            0 <= h <= COORD_LIMIT,
        ensures
            r == (Rectangle { x: 0, y: 0, w, h }),
            r.valid(),
    {
        Rectangle { x: 0, y: 0, w, h }
    }

    /// The center point of the rectangle, with each axis rounded down.
    pub fn center(self) -> (c: (i64, i64))
        requires
            self.valid(),
        ensures
            c.0 == self.x + self.w as int / 2,
            c.1 == self.y + self.h as int / 2,
    {
        let half_w = div_units(self.w, 2);
        let half_h = div_units(self.h, 2);
        (self.x + half_w, self.y + half_h)
    }

    /// The same-sized rectangle centered on the given point, each axis
    /// rounded down.
    pub fn center_at(self, center: (i64, i64)) -> (r: Rectangle)
        requires
            self.valid(),
            -COORD_LIMIT / 2 <= center.0 <= COORD_LIMIT / 2,
            -COORD_LIMIT / 2 <= center.1 <= COORD_LIMIT / 2,
        ensures
            r.x == center.0 - self.w as int / 2,
            r.y == center.1 - self.h as int / 2,
            r.w == self.w,
            r.h == self.h,
            r.valid(),
    {
        let half_w = div_units(self.w, 2);
        let half_h = div_units(self.h, 2);
        Rectangle { x: center.0 - half_w, y: center.1 - half_h, ..self }
    }

    /// Containment test: does `self` fully enclose `rect`?
    pub fn contains(&self, rect: Rectangle) -> (r: bool)
        requires
            self.valid(),
            rect.valid(),
        ensures
            r == self.spec_contains(rect),
    {
        let xmin = rect.x;
        let xmax = xmin + rect.w;
        let ymin = rect.y;
        let ymax = ymin + rect.h;
        xmin >= self.x && xmin <= self.x + self.w && xmax >= self.x && xmax <= self.x + self.w
            && ymin >= self.y && ymin <= self.y + self.h && ymax >= self.y && ymax <= self.y + self.h
    }

    /// Overlap test: do the two rectangles share any interior point?
    pub fn overlaps(&self, other: Rectangle) -> (r: bool)
        requires
            self.valid(),
            other.valid(),
        ensures
            r == self.spec_overlaps(other),
    {
        self.x < other.x + other.w && self.x + self.w > other.x && self.y < other.y + other.h
            && self.y + self.h > other.y
    }

    /// Translates `self` so it lies within `parent`; fails exactly when
    /// `self` is wider or taller than `parent`.
    pub fn move_inside(self, parent: Rectangle) -> (r: Option<Rectangle>)
        requires
            self.valid(),
            parent.valid(),
        ensures
            r == self.spec_move_inside(parent),
            r is Some <==> self.w <= parent.w && self.h <= parent.h,
            r matches Some(q) ==> q.valid() && parent.spec_contains(q),
    {
        if self.w > parent.w || self.h > parent.h {
            return None;
        }
        let x = if self.x < parent.x {
            parent.x
        } else if self.x + self.w >= parent.x + parent.w {
            parent.x + parent.w - self.w
        } else {
            self.x
        };
        let y = if self.y < parent.y {
            parent.y
        } else if self.y + self.h >= parent.y + parent.h {
            parent.y + parent.h - self.h
        } else {
            self.y
        };
        Some(Rectangle { x, y, w: self.w, h: self.h })
    }
}

/// A value tagged with a liveness mark; the collision pass first marks and
/// only afterwards drops, so that one sweep can test every pair.
#[derive(Clone, Copy, Debug)]
pub struct MaybeAlive<T> {
    pub alive: bool,
    pub value: T,
}

impl<T> MaybeAlive<T> {
    /// Checks whether the value is still alive: if it is, returns
    /// `Some(value)`; otherwise, returns `None`.
    pub fn as_option(self) -> (r: Option<T>)
        ensures
            self.alive ==> r == Some(self.value),
            !self.alive ==> r is None,
    {
        if self.alive {
            Some(self.value)
        } else {
            None
        }
    }
}

} // verus!
