//! Integer plane geometry: points, axis-aligned rectangles and the
//! rectangle operations that hit testing and selection are built on.
use vstd::prelude::*;

verus! {

/// Half the side of the square canvas. Every position and every box edge
/// that the board stores lies within `[-CANVAS_LIMIT, CANVAS_LIMIT]` on both
/// axes, which keeps all sums and differences of coordinates inside `i64`.
pub const CANVAS_LIMIT: i64 = 1099511627776;

pub open spec fn in_range(v: int) -> bool {
    -CANVAS_LIMIT <= v <= CANVAS_LIMIT
}

pub open spec fn min_of(a: i64, b: i64) -> i64 {
    if a <= b {
        a
    } else {
        b
    }
}

pub open spec fn max_of(a: i64, b: i64) -> i64 {
    if a >= b {
        a
    } else {
        b
    }
}

/// Clamps `v` into `[lo, hi]`.
pub open spec fn clamp_of(v: int, lo: int, hi: int) -> int {
    if v < lo {
        lo
    } else if v > hi {
        hi
    } else {
        v
    }
}

/// The box of half extents `h` around `c` has no negative extent and lies
/// on the canvas.
pub open spec fn box_fits(c: Vec2, h: Vec2) -> bool {
    &&& h.x >= 0
    &&& h.y >= 0
    &&& in_range(c.x - h.x)
    &&& in_range(c.x + h.x)
    &&& in_range(c.y - h.y)
    &&& in_range(c.y + h.y)
}

/// Whether the box of half extents `h` around `c` lies on the canvas.
pub fn fits_on_canvas(c: Vec2, h: Vec2) -> (r: bool)
    ensures
        r == box_fits(c, h),
{
    if h.x < 0 || h.y < 0 || h.x > CANVAS_LIMIT || h.y > CANVAS_LIMIT {
        return false;
    }
    if !c.is_in_canvas() {
        return false;
    }
    -CANVAS_LIMIT <= c.x - h.x && c.x + h.x <= CANVAS_LIMIT && -CANVAS_LIMIT <= c.y - h.y && c.y
        + h.y <= CANVAS_LIMIT
}

/// A position or a displacement on the canvas, in whole canvas units.
#[derive(Clone, Copy, Debug, PartialEq, Eq, Structural)]
pub struct Vec2 {
    pub x: i64,
    pub y: i64,
}

impl Vec2 {
    pub fn new(x: i64, y: i64) -> (r: Vec2)
        ensures
            r.x == x,
            r.y == y,
    {
        Vec2 { x, y }
    }

    pub fn zero() -> (r: Vec2)
        ensures
            r.x == 0,
            r.y == 0,
    {
        Vec2 { x: 0, y: 0 }
    }

    /// The point lies on the canvas.
    pub open spec fn in_canvas(self) -> bool {
        in_range(self.x as int) && in_range(self.y as int)
    }

    /// Componentwise sum, as a spec value (the caller shows it fits).
    pub open spec fn spec_plus(self, o: Vec2) -> Vec2 {
        Vec2 { x: (self.x + o.x) as i64, y: (self.y + o.y) as i64 }
    }

    pub open spec fn spec_minus(self, o: Vec2) -> Vec2 {
        Vec2 { x: (self.x - o.x) as i64, y: (self.y - o.y) as i64 }
    }

    pub fn is_in_canvas(&self) -> (r: bool)
        ensures
            r == self.in_canvas(),
    {
        -CANVAS_LIMIT <= self.x && self.x <= CANVAS_LIMIT && -CANVAS_LIMIT <= self.y && self.y
            <= CANVAS_LIMIT
    }

    pub fn plus(self, o: Vec2) -> (r: Vec2)
        requires
            i64::MIN <= self.x + o.x <= i64::MAX,
            i64::MIN <= self.y + o.y <= i64::MAX,
        ensures
            r == self.spec_plus(o),
            r.x == self.x + o.x,
            r.y == self.y + o.y,
    {
        Vec2 { x: self.x + o.x, y: self.y + o.y }
    }

    pub fn minus(self, o: Vec2) -> (r: Vec2)
        requires
            i64::MIN <= self.x - o.x <= i64::MAX,
            i64::MIN <= self.y - o.y <= i64::MAX,
        ensures
            r == self.spec_minus(o),
            r.x == self.x - o.x,
            r.y == self.y - o.y,
    {
        Vec2 { x: self.x - o.x, y: self.y - o.y }
    }
}

/// An axis-aligned rectangle given by its lower-left and upper-right corners.
#[derive(Clone, Copy, Debug, PartialEq, Eq, Structural)]
pub struct Rect {
    pub min: Vec2,
    pub max: Vec2,
}

impl Rect {
    /// The corners are ordered on both axes.
    pub open spec fn wf(self) -> bool {
        self.min.x <= self.max.x && self.min.y <= self.max.y
    }

    /// The rectangle is well formed and lies on the canvas.
    pub open spec fn in_canvas(self) -> bool {
        self.wf() && self.min.in_canvas() && self.max.in_canvas()
    }

    /// `p` lies in the closed rectangle.
    pub open spec fn spec_contains(self, p: Vec2) -> bool {
        self.min.x <= p.x <= self.max.x && self.min.y <= p.y <= self.max.y
    }

    /// The rectangle has no area: on some axis its extent is not positive.
    pub open spec fn spec_is_empty(self) -> bool {
        self.min.x >= self.max.x || self.min.y >= self.max.y
    }

    /// The common part of two rectangles (possibly inverted, hence empty).
    pub open spec fn spec_intersect(self, o: Rect) -> Rect {
        Rect {
            min: Vec2 { x: max_of(self.min.x, o.min.x), y: max_of(self.min.y, o.min.y) },
            max: Vec2 { x: min_of(self.max.x, o.max.x), y: min_of(self.max.y, o.max.y) },
        }
    }

    /// Two rectangles overlap with positive area on both axes; merely
    /// touching rectangles, and any rectangle of zero area, do not.
    pub open spec fn overlaps(self, o: Rect) -> bool {
        !self.spec_intersect(o).spec_is_empty()
    }

    /// The smallest rectangle holding both.
    pub open spec fn spec_union(self, o: Rect) -> Rect {
        Rect {
            min: Vec2 { x: min_of(self.min.x, o.min.x), y: min_of(self.min.y, o.min.y) },
            max: Vec2 { x: max_of(self.max.x, o.max.x), y: max_of(self.max.y, o.max.y) },
        }
    }

    /// The rectangle moved by `d`.
    pub open spec fn spec_translate(self, d: Vec2) -> Rect {
        Rect { min: self.min.spec_plus(d), max: self.max.spec_plus(d) }
    }

    /// The center, rounded down to whole units.
    pub open spec fn spec_center(self) -> Vec2 {
        Vec2 {
            x: (self.min.x + (self.max.x - self.min.x) / 2) as i64,
            y: (self.min.y + (self.max.y - self.min.y) / 2) as i64,
        }
    }

    /// The box of half extents `h` around `c`.
    pub open spec fn around(c: Vec2, h: Vec2) -> Rect {
        Rect { min: c.spec_minus(h), max: c.spec_plus(h) }
    }

    /// The rectangle spanned by two opposite corners, in either order.
    pub fn from_corners(a: Vec2, b: Vec2) -> (r: Rect)
        ensures
            r.min == (Vec2 { x: min_of(a.x, b.x), y: min_of(a.y, b.y) }),
            r.max == (Vec2 { x: max_of(a.x, b.x), y: max_of(a.y, b.y) }),
            r.wf(),
    {
        let min_x = if a.x <= b.x {
            a.x
        } else {
            b.x
        };
        let min_y = if a.y <= b.y {
            a.y
        } else {
            b.y
        };
        let max_x = if a.x >= b.x {
            a.x
        } else {
            b.x
        };
        let max_y = if a.y >= b.y {
            a.y
        } else {
            b.y
        };
        Rect { min: Vec2 { x: min_x, y: min_y }, max: Vec2 { x: max_x, y: max_y } }
    }

    /// The box of half extents `h` around `c`.
    pub fn from_center_half_size(c: Vec2, h: Vec2) -> (r: Rect)
        requires
            h.x >= 0,
            h.y >= 0,
            i64::MIN <= c.x - h.x,
            c.x + h.x <= i64::MAX,
            i64::MIN <= c.y - h.y,
            c.y + h.y <= i64::MAX,
        ensures
            r == Rect::around(c, h),
            r.wf(),
    {
        Rect { min: c.minus(h), max: c.plus(h) }
    }

    pub fn contains(&self, p: Vec2) -> (r: bool)
        ensures
            r == self.spec_contains(p),
    {
        self.min.x <= p.x && p.x <= self.max.x && self.min.y <= p.y && p.y <= self.max.y
    }

    pub fn is_empty(&self) -> (r: bool)
        ensures
            r == self.spec_is_empty(),
    {
        self.min.x >= self.max.x || self.min.y >= self.max.y
    }

    pub fn intersect(&self, o: &Rect) -> (r: Rect)
        ensures
            r == self.spec_intersect(*o),
    {
        Rect {
            min: Vec2 {
                x: if self.min.x >= o.min.x {
                    self.min.x
                } else {
                    o.min.x
                },
                y: if self.min.y >= o.min.y {
                    self.min.y
                } else {
                    o.min.y
                },
            },
            max: Vec2 {
                x: if self.max.x <= o.max.x {
                    self.max.x
                } else {
                    o.max.x
                },
                y: if self.max.y <= o.max.y {
                    self.max.y
                } else {
                    o.max.y
                },
            },
        }
    }

    pub fn union(&self, o: &Rect) -> (r: Rect)
        ensures
            r == self.spec_union(*o),
    {
        Rect {
            min: Vec2 {
                x: if self.min.x <= o.min.x {
                    self.min.x
                } else {
                    o.min.x
                },
                y: if self.min.y <= o.min.y {
                    self.min.y
                } else {
                    o.min.y
                },
            },
            max: Vec2 {
                x: if self.max.x >= o.max.x {
                    self.max.x
                } else {
                    o.max.x
                },
                y: if self.max.y >= o.max.y {
                    self.max.y
                } else {
                    o.max.y
                },
            },
        }
    }

    /// The center, rounded down to whole units.
    pub fn center(&self) -> (r: Vec2)
        requires
            self.in_canvas(),
        ensures
            r == self.spec_center(),
            r.in_canvas(),
            self.spec_contains(r),
    {
        Vec2 {
            x: self.min.x + (self.max.x - self.min.x) / 2,
            y: self.min.y + (self.max.y - self.min.y) / 2,
        }
    }

    pub fn translate(&self, d: Vec2) -> (r: Rect)
        requires
            i64::MIN <= self.min.x + d.x <= i64::MAX,
            i64::MIN <= self.min.y + d.y <= i64::MAX,
            i64::MIN <= self.max.x + d.x <= i64::MAX,
            i64::MIN <= self.max.y + d.y <= i64::MAX,
        ensures
            r == self.spec_translate(d),
    {
        Rect { min: self.min.plus(d), max: self.max.plus(d) }
    }

    pub fn width(&self) -> (r: i64)
        requires
            self.in_canvas(),
        ensures
            r == self.max.x - self.min.x,
    {
        self.max.x - self.min.x
    }

    pub fn height(&self) -> (r: i64)
        requires
            self.in_canvas(),
        ensures
            r == self.max.y - self.min.y,
    {
        self.max.y - self.min.y
    }
}

/// The bounding union of a sequence of rectangles, folded from the front;
/// `None` for an empty sequence.
pub open spec fn surrounding(rs: Seq<Rect>) -> Option<Rect>
    decreases rs.len(),
{
    if rs.len() == 0 {
        None
    } else {
        match surrounding(rs.drop_last()) {
            None => Some(rs.last()),
            Some(r) => Some(r.spec_union(rs.last())),
        }
    }
}

/// `u` is the exact min/max bound of `rs`: each of its four edges is the
/// extreme of that edge over `rs`, and is attained by some member.
pub open spec fn is_exact_bound(u: Rect, rs: Seq<Rect>) -> bool {
    &&& forall|i: int|
        0 <= i < rs.len() ==> u.min.x <= (#[trigger] rs[i]).min.x && u.min.y <= rs[i].min.y
            && rs[i].max.x <= u.max.x && rs[i].max.y <= u.max.y
    &&& exists|i: int| 0 <= i < rs.len() && u.min.x == #[trigger] rs[i].min.x
    &&& exists|i: int| 0 <= i < rs.len() && u.min.y == #[trigger] rs[i].min.y
    &&& exists|i: int| 0 <= i < rs.len() && u.max.x == #[trigger] rs[i].max.x
    &&& exists|i: int| 0 <= i < rs.len() && u.max.y == #[trigger] rs[i].max.y
}

/// The union of a non-empty sequence of rectangles is its exact min/max
/// bounding box.
pub proof fn lemma_surrounding_is_exact(rs: Seq<Rect>)
    requires
        rs.len() > 0,
    ensures
        surrounding(rs) is Some,
        is_exact_bound(surrounding(rs).unwrap(), rs),
    decreases rs.len(),
{
    let init = rs.drop_last();
    if init.len() == 0 {
        assert(surrounding(init) is None);
        let u = rs.last();
        assert(u.min.x == rs[0].min.x);
    } else {
        lemma_surrounding_is_exact(init);
        let p = surrounding(init).unwrap();
        let u = surrounding(rs).unwrap();
        let l = rs.len() - 1;
        assert(u == p.spec_union(rs[l]));
        assert forall|i: int| 0 <= i < rs.len() implies u.min.x <= #[trigger] rs[i].min.x
            && u.min.y <= rs[i].min.y && rs[i].max.x <= u.max.x && rs[i].max.y <= u.max.y by {
            if i < l {
                assert(init[i] == rs[i]);
            }
        }
        let ix = choose|i: int| 0 <= i < init.len() && p.min.x == #[trigger] init[i].min.x;
        let iy = choose|i: int| 0 <= i < init.len() && p.min.y == #[trigger] init[i].min.y;
        let jx = choose|i: int| 0 <= i < init.len() && p.max.x == #[trigger] init[i].max.x;
        let jy = choose|i: int| 0 <= i < init.len() && p.max.y == #[trigger] init[i].max.y;
        assert(init[ix] == rs[ix] && init[iy] == rs[iy] && init[jx] == rs[jx] && init[jy]
            == rs[jy]);
        if u.min.x == rs[l].min.x {
        } else {
            assert(u.min.x == rs[ix].min.x);
        }
        if u.min.y == rs[l].min.y {
        } else {
            assert(u.min.y == rs[iy].min.y);
        }
        if u.max.x == rs[l].max.x {
        } else {
            assert(u.max.x == rs[jx].max.x);
        }
        if u.max.y == rs[l].max.y {
        } else {
            assert(u.max.y == rs[jy].max.y);
        }
    }
}

/// At most one rectangle is the exact bound of a given sequence.
pub proof fn lemma_exact_bound_unique(u: Rect, v: Rect, rs: Seq<Rect>)
    requires
        is_exact_bound(u, rs),
        is_exact_bound(v, rs),
    ensures
        u == v,
{
    let a = choose|i: int| 0 <= i < rs.len() && u.min.x == #[trigger] rs[i].min.x;
    let b = choose|i: int| 0 <= i < rs.len() && v.min.x == #[trigger] rs[i].min.x;
    assert(u.min.x <= rs[b].min.x && v.min.x <= rs[a].min.x);
    let a = choose|i: int| 0 <= i < rs.len() && u.min.y == #[trigger] rs[i].min.y;
    let b = choose|i: int| 0 <= i < rs.len() && v.min.y == #[trigger] rs[i].min.y;
    assert(u.min.y <= rs[b].min.y && v.min.y <= rs[a].min.y);
    let a = choose|i: int| 0 <= i < rs.len() && u.max.x == #[trigger] rs[i].max.x;
    let b = choose|i: int| 0 <= i < rs.len() && v.max.x == #[trigger] rs[i].max.x;
    assert(rs[b].max.x <= u.max.x && rs[a].max.x <= v.max.x);
    let a = choose|i: int| 0 <= i < rs.len() && u.max.y == #[trigger] rs[i].max.y;
    let b = choose|i: int| 0 <= i < rs.len() && v.max.y == #[trigger] rs[i].max.y;
    assert(rs[b].max.y <= u.max.y && rs[a].max.y <= v.max.y);
}

/// The union does not depend on the order of the rectangles:
/// two sequences holding the same rectangles have the same union.
pub proof fn lemma_surrounding_order_free(a: Seq<Rect>, b: Seq<Rect>)
    requires
        a.to_multiset() == b.to_multiset(),
    ensures
        surrounding(a) == surrounding(b),
{
    a.to_multiset_ensures();
    b.to_multiset_ensures();
    assert(a.len() == b.len());
    if a.len() > 0 {
        lemma_surrounding_is_exact(a);
        lemma_surrounding_is_exact(b);
        let u = surrounding(a).unwrap();
        let v = surrounding(b).unwrap();
        assert forall|x: Rect| a.contains(x) <==> b.contains(x) by {
            let ma = a.to_multiset();
            let mb = b.to_multiset();
            assert(ma.count(x) == mb.count(x));
            assert(a.contains(x) <==> ma.count(x) > 0);
            assert(b.contains(x) <==> mb.count(x) > 0);
        }
        assert(is_exact_bound(v, a)) by {
            assert forall|i: int| 0 <= i < a.len() implies v.min.x <= #[trigger] a[i].min.x
                && v.min.y <= a[i].min.y && a[i].max.x <= v.max.x && a[i].max.y <= v.max.y by {
                assert(a.contains(a[i]));
                let j = choose|j: int| 0 <= j < b.len() && b[j] == a[i];
                assert(v.min.x <= b[j].min.x);
            }
            let j = choose|i: int| 0 <= i < b.len() && v.min.x == #[trigger] b[i].min.x;
            assert(b.contains(b[j]));
            let k = choose|k: int| 0 <= k < a.len() && a[k] == b[j];
            assert(v.min.x == a[k].min.x);
            let j = choose|i: int| 0 <= i < b.len() && v.min.y == #[trigger] b[i].min.y;
            assert(b.contains(b[j]));
            let k = choose|k: int| 0 <= k < a.len() && a[k] == b[j];
            assert(v.min.y == a[k].min.y);
            let j = choose|i: int| 0 <= i < b.len() && v.max.x == #[trigger] b[i].max.x;
            assert(b.contains(b[j]));
            let k = choose|k: int| 0 <= k < a.len() && a[k] == b[j];
            assert(v.max.x == a[k].max.x);
            let j = choose|i: int| 0 <= i < b.len() && v.max.y == #[trigger] b[i].max.y;
            assert(b.contains(b[j]));
            let k = choose|k: int| 0 <= k < a.len() && a[k] == b[j];
            assert(v.max.y == a[k].max.y);
        }
        lemma_exact_bound_unique(u, v, a);
    }
}

} // verus!
