//! Rectangles in global desktop coordinates and the two resolution
//! functions that map a point or a window to a monitor.

use vstd::prelude::*;
use vstd::math::{max, min};

verus! {

/// An axis-aligned rectangle in whole pixels of the global coordinate space.
#[derive(Clone, Copy, Debug, PartialEq, Eq, Structural)]
pub struct Rect {
    pub x: i32,
    pub y: i32,
    pub width: i32,
    pub height: i32,
}

/// A width and a height in whole pixels.
#[derive(Clone, Copy, Debug, PartialEq, Eq, Structural)]
pub struct Size {
    pub width: i32,
    pub height: i32,
}

/// Quotient of `a` by a positive `d`, rounded toward zero.
pub open spec fn div_toward_zero(a: int, d: int) -> int
    recommends
        d > 0,
{
    if a >= 0 {
        a / d
    } else {
        -((-a) / d)
    }
}

impl Rect {
    /// The first column to the right of the rectangle.
    pub open spec fn right(self) -> int {
        self.x + self.width
    }

    /// The first row below the rectangle.
    pub open spec fn bottom(self) -> int {
        self.y + self.height
    }

    /// Half-open containment: the left and top edges belong to the
    /// rectangle, the right and bottom edges do not.
    pub open spec fn contains(self, px: int, py: int) -> bool {
        self.x <= px < self.right() && self.y <= py < self.bottom()
    }

    /// Width of the intersection with `other`; not positive when the two
    /// do not overlap horizontally.
    pub open spec fn overlap_width(self, other: Rect) -> int {
        min(self.right(), other.right()) - max(self.x as int, other.x as int)
    }

    /// Height of the intersection with `other`; not positive when the two
    /// do not overlap vertically.
    pub open spec fn overlap_height(self, other: Rect) -> int {
        min(self.bottom(), other.bottom()) - max(self.y as int, other.y as int)
    }

    /// Area shared with `other`, zero when the intersection is empty or
    /// degenerate.
    pub open spec fn overlap_area(self, other: Rect) -> int {
        if self.overlap_width(other) <= 0 || self.overlap_height(other) <= 0 {
            0
        } else {
            self.overlap_width(other) * self.overlap_height(other)
        }
    }

    /// The rectangle with the given origin and size.
    pub fn new(x: i32, y: i32, width: i32, height: i32) -> (r: Rect)
        ensures
            r == (Rect { x, y, width, height }),
    {
        Rect { x, y, width, height }
    }

    /// The point in the middle of the rectangle, each coordinate rounded
    /// toward the rectangle's origin.
    pub open spec fn middle(self) -> (int, int) {
        (
            self.x + div_toward_zero(self.width as int, 2),
            self.y + div_toward_zero(self.height as int, 2),
        )
    }

    /// The point in the middle of the rectangle.
    pub fn center(&self) -> (c: (i64, i64))
        ensures
            c.0 == self.middle().0,
            c.1 == self.middle().1,
    {
        let half_w: i64 = if self.width >= 0 {
            (self.width / 2) as i64
        } else {
            -((((-(self.width as i64)) as u64) / 2) as i64)
        };
        let half_h: i64 = if self.height >= 0 {
            (self.height / 2) as i64
        } else {
            -((((-(self.height as i64)) as u64) / 2) as i64)
        };
        (self.x as i64 + half_w, self.y as i64 + half_h)
    }

    /// Whether the point lies inside the rectangle, edges half-open.
    pub fn contains_point(&self, px: i32, py: i32) -> (b: bool)
        ensures
            b == self.contains(px as int, py as int),
    {
        let right: i64 = self.x as i64 + self.width as i64;
        let bottom: i64 = self.y as i64 + self.height as i64;
        let px: i64 = px as i64;
        let py: i64 = py as i64;
        px >= self.x as i64 && px < right && py >= self.y as i64 && py < bottom
    }
}

/// `i` is the position of the first monitor that contains the point.
pub open spec fn is_first_containing(monitors: Seq<Rect>, px: int, py: int, i: int) -> bool {
    &&& 0 <= i < monitors.len()
    &&& monitors[i].contains(px, py)
    &&& forall|j: int| 0 <= j < i ==> !(#[trigger] monitors[j]).contains(px, py)
}

/// The first monitor that contains the point, if any does.
pub open spec fn point_monitor(monitors: Seq<Rect>, px: int, py: int) -> Option<Rect> {
    if exists|i: int| is_first_containing(monitors, px, py, i) {
        Some(monitors[choose|i: int| is_first_containing(monitors, px, py, i)])
    } else {
        None
    }
}

/// At most one position is that of the first monitor containing a point.
pub proof fn lemma_first_containing_unique(monitors: Seq<Rect>, px: int, py: int, i: int, j: int)
    requires
        is_first_containing(monitors, px, py, i),
        is_first_containing(monitors, px, py, j),
    ensures
        i == j,
{
    if i < j {
        assert(!monitors[i].contains(px, py));
    } else if j < i {
        assert(!monitors[j].contains(px, py));
    }
}

/// The first monitor whose rectangle contains the point, if any does.
pub fn monitor_for_point(monitors: &[Rect], x: i32, y: i32) -> (found: Option<Rect>)
    ensures
        found == point_monitor(monitors@, x as int, y as int),
        match found {
            Some(m) => exists|i: int|
                is_first_containing(monitors@, x as int, y as int, i) && monitors@[i] == m,
            None => forall|j: int|
                0 <= j < monitors@.len() ==> !(#[trigger] monitors@[j]).contains(x as int, y as int),
        },
{
    let mut i: usize = 0;
    while i < monitors.len()
        invariant
            i <= monitors@.len(),
            forall|j: int| 0 <= j < i ==> !(#[trigger] monitors@[j]).contains(x as int, y as int),
        decreases monitors@.len() - i,
    {
        if monitors[i].contains_point(x, y) {
            proof {
                assert(is_first_containing(monitors@, x as int, y as int, i as int));
                let chosen = choose|k: int| is_first_containing(monitors@, x as int, y as int, k);
                lemma_first_containing_unique(monitors@, x as int, y as int, i as int, chosen);
            }
            return Some(monitors[i]);
        }
        i += 1;
    }
    None
}

/// The position of the first monitor whose rectangle contains the point,
/// if any does.
pub fn monitor_index_for_point(monitors: &[Rect], x: i32, y: i32) -> (found: Option<usize>)
    ensures
        match found {
            Some(i) => is_first_containing(monitors@, x as int, y as int, i as int),
            None => forall|j: int|
                0 <= j < monitors@.len() ==> !(#[trigger] monitors@[j]).contains(x as int, y as int),
        },
{
    let mut i: usize = 0;
    while i < monitors.len()
        invariant
            i <= monitors@.len(),
            forall|j: int| 0 <= j < i ==> !(#[trigger] monitors@[j]).contains(x as int, y as int),
        decreases monitors@.len() - i,
    {
        if monitors[i].contains_point(x, y) {
            return Some(i);
        }
        i += 1;
    }
    None
}

/// `i` is the position of the monitor that shares the most area with
/// `window`; among monitors with equal shares, the last one.
pub open spec fn is_best_overlap(monitors: Seq<Rect>, window: Rect, i: int) -> bool {
    &&& 0 <= i < monitors.len()
    &&& monitors[i].overlap_area(window) > 0
    &&& forall|j: int|
        0 <= j < monitors.len() ==> (#[trigger] monitors[j]).overlap_area(window)
            <= monitors[i].overlap_area(window)
    &&& forall|j: int|
        i < j < monitors.len() ==> (#[trigger] monitors[j]).overlap_area(window)
            < monitors[i].overlap_area(window)
}

/// No monitor shares any area with `window`.
pub open spec fn no_overlap(monitors: Seq<Rect>, window: Rect) -> bool {
    forall|j: int| 0 <= j < monitors.len() ==> (#[trigger] monitors[j]).overlap_area(window) == 0
}

/// The monitor that shares the most area with `window`, if any shares some.
pub open spec fn bounds_monitor(monitors: Seq<Rect>, window: Rect) -> Option<Rect> {
    if exists|i: int| is_best_overlap(monitors, window, i) {
        Some(monitors[choose|i: int| is_best_overlap(monitors, window, i)])
    } else {
        None
    }
}

/// At most one position is that of the monitor with the best overlap.
pub proof fn lemma_best_overlap_unique(monitors: Seq<Rect>, window: Rect, i: int, j: int)
    requires
        is_best_overlap(monitors, window, i),
        is_best_overlap(monitors, window, j),
    ensures
        i == j,
{
    if i < j {
        assert(monitors[j].overlap_area(window) < monitors[i].overlap_area(window));
        assert(monitors[i].overlap_area(window) <= monitors[j].overlap_area(window));
    } else if j < i {
        assert(monitors[i].overlap_area(window) < monitors[j].overlap_area(window));
        assert(monitors[j].overlap_area(window) <= monitors[i].overlap_area(window));
    }
}

/// The overlap of two rectangles never exceeds either of them, so its area
/// stays far below the limit of a 64-bit integer.
pub proof fn lemma_overlap_bounds(a: Rect, b: Rect)
    ensures
        a.overlap_width(b) <= a.width,
        a.overlap_width(b) <= b.width,
        a.overlap_height(b) <= a.height,
        a.overlap_height(b) <= b.height,
        0 <= a.overlap_area(b) <= 0x3fff_ffff_0000_0001,
        a.overlap_area(b) == b.overlap_area(a),
{
    let w = a.overlap_width(b);
    let h = a.overlap_height(b);
    if w > 0 && h > 0 {
        assert(0 < w * h <= 0x7fff_ffff * 0x7fff_ffff) by (nonlinear_arith)
            requires
                0 < w <= 0x7fff_ffff,
                0 < h <= 0x7fff_ffff,
        ;
    }
}

/// Area that two rectangles have in common.
pub fn intersection_area(a: &Rect, b: &Rect) -> (area: i64)
    ensures
        area == a.overlap_area(*b),
        area >= 0,
{
    let a_right: i64 = a.x as i64 + a.width as i64;
    let b_right: i64 = b.x as i64 + b.width as i64;
    let a_bottom: i64 = a.y as i64 + a.height as i64;
    let b_bottom: i64 = b.y as i64 + b.height as i64;
    let left: i64 = if a.x >= b.x { a.x as i64 } else { b.x as i64 };
    let top: i64 = if a.y >= b.y { a.y as i64 } else { b.y as i64 };
    let right: i64 = if a_right <= b_right { a_right } else { b_right };
    let bottom: i64 = if a_bottom <= b_bottom { a_bottom } else { b_bottom };
    let w: i64 = right - left;
    let h: i64 = bottom - top;
    if w <= 0 || h <= 0 {
        return 0;
    }
    proof {
        lemma_overlap_bounds(*a, *b);
    }
    w * h
}

/// The monitor that shares the largest area with `window`. A monitor that
/// only touches the window, or lies apart from it, is never chosen; of
/// several monitors with the same largest share the last one is returned.
pub fn monitor_for_bounds(monitors: &[Rect], window: &Rect) -> (found: Option<Rect>)
    ensures
        found == bounds_monitor(monitors@, *window),
        match found {
            Some(m) => exists|i: int| is_best_overlap(monitors@, *window, i) && monitors@[i] == m,
            None => no_overlap(monitors@, *window),
        },
{
    let mut best: Option<(usize, i64)> = None;
    let mut i: usize = 0;
    while i < monitors.len()
        invariant
            i <= monitors@.len(),
            match best {
                Some((b, area)) => {
                    &&& b < i
                    &&& area == monitors@[b as int].overlap_area(*window)
                    &&& area > 0
                    &&& forall|j: int|
                        0 <= j < i ==> (#[trigger] monitors@[j]).overlap_area(*window) <= area
                    &&& forall|j: int|
                        b < j < i ==> (#[trigger] monitors@[j]).overlap_area(*window) < area
                },
                None => forall|j: int|
                    0 <= j < i ==> (#[trigger] monitors@[j]).overlap_area(*window) == 0,
            },
        decreases monitors@.len() - i,
    {
        let area = intersection_area(&monitors[i], window);
        if area > 0 {
            let replace = match best {
                Some((_, best_area)) => area >= best_area,
                None => true,
            };
            if replace {
                best = Some((i, area));
            }
        }
        i += 1;
    }
    match best {
        Some((b, _)) => {
            proof {
                assert(is_best_overlap(monitors@, *window, b as int));
                let chosen = choose|k: int| is_best_overlap(monitors@, *window, k);
                lemma_best_overlap_unique(monitors@, *window, b as int, chosen);
            }
            Some(monitors[b])
        },
        None => {
            assert forall|k: int| !is_best_overlap(monitors@, *window, k) by {
                if 0 <= k < monitors@.len() {
                    assert(monitors@[k].overlap_area(*window) == 0);
                }
            }
            None
        },
    }
}

} // verus!
