use vstd::prelude::*;

verus! {

/// An axis-aligned rectangle in layout pixels: origin `(x, y)`, size `w` by `h`.
#[derive(Debug, Clone, Copy, PartialEq, Eq, Structural)]
pub struct Rect {
    pub x: i32,
    pub y: i32,
    pub w: i32,
    pub h: i32,
}

pub open spec fn max_int(a: int, b: int) -> int {
    if a >= b {
        a
    } else {
        b
    }
}

pub open spec fn min_int(a: int, b: int) -> int {
    if a <= b {
        a
    } else {
        b
    }
}

/// Length of the overlap of the intervals `[a0, a1)` and `[b0, b1)`, 0 when
/// they do not meet.
pub open spec fn overlap_len(a0: int, a1: int, b0: int, b1: int) -> int {
    let d = min_int(a1, b1) - max_int(a0, b0);
    if d > 0 {
        d
    } else {
        0
    }
}

pub open spec fn fits_i32(v: int) -> bool {
    i32::MIN <= v <= i32::MAX
}

impl Rect {
    /// `x + w`.
    pub open spec fn right_edge(self) -> int {
        self.x + self.w
    }

    /// `y + h`.
    pub open spec fn bottom_edge(self) -> int {
        self.y + self.h
    }

    /// The far edges of both rects, and the spans between the nearer far
    /// edge and the farther near edge, are all `i32` values: the
    /// arithmetic that compares two rects stays in range.
    pub open spec fn comparable(self, other: Rect) -> bool {
        &&& fits_i32(self.right_edge())
        &&& fits_i32(self.bottom_edge())
        &&& fits_i32(other.right_edge())
        &&& fits_i32(other.bottom_edge())
        &&& fits_i32(
            min_int(self.right_edge(), other.right_edge()) - max_int(self.x as int, other.x as int),
        )
        &&& fits_i32(
            min_int(self.bottom_edge(), other.bottom_edge()) - max_int(
                self.y as int,
                other.y as int,
            ),
        )
    }

    /// Overlap area with `other`, in px².
    pub open spec fn area_with(self, other: Rect) -> int {
        overlap_len(self.x as int, self.right_edge(), other.x as int, other.right_edge())
            * overlap_len(self.y as int, self.bottom_edge(), other.y as int, other.bottom_edge())
    }

    /// The overlapping rect, or `None` when the two do not meet in a region
    /// of positive area.
    pub open spec fn meet(self, other: Rect) -> Option<Rect> {
        let x = max_int(self.x as int, other.x as int);
        let y = max_int(self.y as int, other.y as int);
        let w = min_int(self.right_edge(), other.right_edge()) - x;
        let h = min_int(self.bottom_edge(), other.bottom_edge()) - y;
        if w > 0 && h > 0 {
            Some(Rect { x: x as i32, y: y as i32, w: w as i32, h: h as i32 })
        } else {
            None
        }
    }

    /// `r` lies inside `self`.
    pub open spec fn contains_rect(self, r: Rect) -> bool {
        &&& self.x <= r.x
        &&& self.y <= r.y
        &&& r.right_edge() <= self.right_edge()
        &&& r.bottom_edge() <= self.bottom_edge()
    }

    pub fn right(&self) -> (r: i32)
        requires
            fits_i32(self.right_edge()),
        ensures
            r == self.right_edge(),
    {
        self.x + self.w
    }

    pub fn bottom(&self) -> (r: i32)
        requires
            fits_i32(self.bottom_edge()),
        ensures
            r == self.bottom_edge(),
    {
        self.y + self.h
    }

    /// Overlap area with `other`, in px².
    pub fn intersect_area(&self, other: &Rect) -> (a: i64)
        requires
            self.comparable(*other),
        ensures
            a == self.area_with(*other),
            a >= 0,
    {
        let w0 = min_i32(self.right(), other.right()) - max_i32(self.x, other.x);
        let h0 = min_i32(self.bottom(), other.bottom()) - max_i32(self.y, other.y);
        let w = if w0 > 0 {
            w0
        } else {
            0
        };
        let h = if h0 > 0 {
            h0
        } else {
            0
        };
        assert(0 <= (w as int) * (h as int) <= 0x7fff_ffff * 0x7fff_ffff) by (nonlinear_arith)
            requires
                0 <= w <= 0x7fff_ffff,
                0 <= h <= 0x7fff_ffff,
        ;
        (w as i64) * (h as i64)
    }

    /// Whether the two rects share a region of positive area.
    pub fn intersects(&self, other: &Rect) -> (b: bool)
        requires
            self.comparable(*other),
        ensures
            b == (self.area_with(*other) > 0),
    {
        self.intersect_area(other) > 0
    }

    /// The overlapping rect, or `None` when they do not meet.
    pub fn intersection(&self, other: &Rect) -> (r: Option<Rect>)
        requires
            self.comparable(*other),
        ensures
            r == self.meet(*other),
    {
        let x = max_i32(self.x, other.x);
        let y = max_i32(self.y, other.y);
        let w = min_i32(self.right(), other.right()) - x;
        let h = min_i32(self.bottom(), other.bottom()) - y;
        if w > 0 && h > 0 {
            Some(Rect { x, y, w, h })
        } else {
            None
        }
    }
}

fn max_i32(a: i32, b: i32) -> (r: i32)
    ensures
        r == max_int(a as int, b as int),
{
    if a >= b {
        a
    } else {
        b
    }
}

fn min_i32(a: i32, b: i32) -> (r: i32)
    ensures
        r == min_int(a as int, b as int),
{
    if a <= b {
        a
    } else {
        b
    }
}

/// The overlap area does not depend on the order of the two rects.
pub proof fn lemma_area_symmetric(a: Rect, b: Rect)
    ensures
        a.area_with(b) == b.area_with(a),
{
}

/// Two rects intersect exactly when their intersection exists, and then
/// the intersection's area is the overlap area and it lies inside both.
pub proof fn lemma_intersection_matches_area(a: Rect, b: Rect)
    ensures
        (a.area_with(b) > 0) <==> (a.meet(b) is Some),
        a.area_with(b) >= 0,
        a.comparable(b) && a.meet(b) is Some ==> ({
            let r = a.meet(b)->0;
            &&& r.w * r.h == a.area_with(b)
            &&& a.contains_rect(r)
            &&& b.contains_rect(r)
        }),
{
    let w = overlap_len(a.x as int, a.right_edge(), b.x as int, b.right_edge());
    let h = overlap_len(a.y as int, a.bottom_edge(), b.y as int, b.bottom_edge());
    assert(w >= 0 && h >= 0);
    assert((w * h > 0) <==> (w > 0 && h > 0)) by (nonlinear_arith)
        requires
            w >= 0,
            h >= 0,
    ;
    assert(w * h >= 0) by (nonlinear_arith)
        requires
            w >= 0,
            h >= 0,
    ;
}

/// Every rect meets itself in itself, when it has positive area.
pub proof fn lemma_self_intersection(a: Rect)
    requires
        a.w > 0,
        a.h > 0,
        fits_i32(a.right_edge()),
        fits_i32(a.bottom_edge()),
    ensures
        a.meet(a) == Some(a),
        a.area_with(a) == a.w * a.h,
{
}


// ---------------------------------------------------------------------------
// Input-method popups
// ---------------------------------------------------------------------------

/// Where an input-method popup goes: the position of its scene node
/// relative to the focused surface's parent tree, and the text cursor's
/// rectangle origin relative to the popup.
#[derive(Debug, Clone, Copy, PartialEq, Eq, Structural)]
pub struct PopupPlacement {
    pub node_x: i64,
    pub node_y: i64,
    pub cursor_x: i64,
    pub cursor_y: i64,
}

/// The popup's top-left corner in output coordinates, for a text cursor
/// rectangle `(cx, cy, cw, ch)` in output coordinates: under the cursor and
/// left-aligned with it where it fits on the output, else right-aligned with
/// it and above it.
pub open spec fn popup_corner(cx: int, cy: int, cw: int, ch: int, ow: int, oh: int, pw: int, ph: int) -> (int, int) {
    (
        if ow - cx >= pw { cx } else { cx + cw - pw },
        if oh - (cy + ch) >= ph { cy + ch } else { cy - ph },
    )
}

/// Places an input-method popup of `popup_w` by `popup_h` for the text
/// cursor rectangle `cursor`, given relative to the focused surface at
/// `(focused_x, focused_y)`, on the output `output`.
pub fn place_input_popup(
    focused_x: i32,
    focused_y: i32,
    cursor: Rect,
    output: Rect,
    popup_w: i32,
    popup_h: i32,
) -> (r: PopupPlacement)
    ensures
        ({
            let cx = cursor.x + focused_x - output.x;
            let cy = cursor.y + focused_y - output.y;
            let (px, py) = popup_corner(cx, cy, cursor.w as int, cursor.h as int, output.w as int, output.h as int, popup_w as int, popup_h as int);
            &&& r.node_x == px - focused_x + output.x
            &&& r.node_y == py - focused_y + output.y
            &&& r.cursor_x == cx - px
            &&& r.cursor_y == cy - py
        }),
{
    let cx: i64 = cursor.x as i64 + focused_x as i64 - output.x as i64;
    let cy: i64 = cursor.y as i64 + focused_y as i64 - output.y as i64;
    let px: i64 = if output.w as i64 - cx >= popup_w as i64 {
        cx
    } else {
        cx + cursor.w as i64 - popup_w as i64
    };
    let py: i64 = if output.h as i64 - (cy + cursor.h as i64) >= popup_h as i64 {
        cy + cursor.h as i64
    } else {
        cy - popup_h as i64
    };
    PopupPlacement {
        node_x: px - focused_x as i64 + output.x as i64,
        node_y: py - focused_y as i64 + output.y as i64,
        cursor_x: cx - px,
        cursor_y: cy - py,
    }
}

} // verus!
