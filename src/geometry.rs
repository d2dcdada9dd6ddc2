//! Integer pixel rectangles.

use vstd::prelude::*;

verus! {

/// A whole-pixel rectangle; `min` and `max` are both inclusive corners.
#[derive(Clone, Copy, Debug, PartialEq, Eq, Structural)]
pub struct PixelRect {
    pub min_x: i32,
    pub min_y: i32,
    pub max_x: i32,
    pub max_y: i32,
}

/// `inner` lies inside `outer` on both axes.
pub open spec fn rect_within(inner: PixelRect, outer: PixelRect) -> bool {
    &&& outer.min_x <= inner.min_x
    &&& outer.min_y <= inner.min_y
    &&& inner.max_x <= outer.max_x
    &&& inner.max_y <= outer.max_y
}

pub open spec fn min_i32(a: i32, b: i32) -> i32 {
    if a <= b { a } else { b }
}

pub open spec fn max_i32(a: i32, b: i32) -> i32 {
    if a >= b { a } else { b }
}

/// `r` lies strictly outside `area` on some axis.
pub open spec fn rect_disjoint(r: PixelRect, area: PixelRect) -> bool {
    r.max_x < area.min_x || r.max_y < area.min_y || r.min_x > area.max_x || r.min_y > area.max_y
}

/// The part of `r` inside `area`: `None` when `r` does not reach into `area` at all.
pub open spec fn clip_spec(r: PixelRect, area: PixelRect) -> Option<PixelRect> {
    if rect_disjoint(r, area) {
        None
    } else {
        Some(
            PixelRect {
                min_x: max_i32(r.min_x, area.min_x),
                min_y: max_i32(r.min_y, area.min_y),
                max_x: min_i32(r.max_x, area.max_x),
                max_y: min_i32(r.max_y, area.max_y),
            },
        )
    }
}

/// The smallest rectangle holding both `a` and `b`.
pub open spec fn hull_spec(a: PixelRect, b: PixelRect) -> PixelRect {
    PixelRect {
        min_x: min_i32(a.min_x, b.min_x),
        min_y: min_i32(a.min_y, b.min_y),
        max_x: max_i32(a.max_x, b.max_x),
        max_y: max_i32(a.max_y, b.max_y),
    }
}

impl PixelRect {
    /// Clamps this rectangle to `area`, or gives `None` where it lies wholly outside it.
    pub fn clip(&self, area: &PixelRect) -> (r: Option<PixelRect>)
        ensures
            r == clip_spec(*self, *area),
    {
        if self.max_x < area.min_x || self.max_y < area.min_y || self.min_x > area.max_x
            || self.min_y > area.max_y {
            return None;
        }
        Some(
            PixelRect {
                min_x: if self.min_x >= area.min_x { self.min_x } else { area.min_x },
                min_y: if self.min_y >= area.min_y { self.min_y } else { area.min_y },
                max_x: if self.max_x <= area.max_x { self.max_x } else { area.max_x },
                max_y: if self.max_y <= area.max_y { self.max_y } else { area.max_y },
            },
        )
    }
}

} // verus!
