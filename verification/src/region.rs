//! Screen regions that have to be sent to the panel after a partial redraw.

use vstd::prelude::*;

verus! {

/// A rectangle of pixels: its top left corner, its width and its height.
#[derive(Clone, Copy, Debug, PartialEq, Eq, Structural)]
pub struct FlushRegion {
    pub x: u16,
    pub y: u16,
    pub w: u16,
    pub h: u16,
}

/// The low sixteen bits of a number.
pub open spec fn low16(v: int) -> int {
    v % 0x1_0000
}

pub open spec fn min_of(a: int, b: int) -> int {
    if a <= b {
        a
    } else {
        b
    }
}

pub open spec fn max_of(a: int, b: int) -> int {
    if a >= b {
        a
    } else {
        b
    }
}

fn to_low16(v: i32) -> (r: u16)
    ensures
        r == low16(v as int),
{
    assert(v as u16 == v as int % 0x1_0000) by (bit_vector);
    #[verifier::truncate] (v as u16)
}

impl FlushRegion {
    /// The column behind the last one.
    pub open spec fn right(self) -> int {
        self.x + self.w
    }

    /// The row behind the last one.
    pub open spec fn bottom(self) -> int {
        self.y + self.h
    }

    /// Whether a pixel lies in the region.
    pub open spec fn covers(self, px: int, py: int) -> bool {
        self.x <= px < self.right() && self.y <= py < self.bottom()
    }

    /// Whether every pixel of `inner` lies in the region.
    pub open spec fn encloses(self, inner: FlushRegion) -> bool {
        forall|px: int, py: int| #[trigger] inner.covers(px, py) ==> self.covers(px, py)
    }

    /// Whether the width and height that span both regions fit a region's fields.
    pub open spec fn span_fits(self, other: FlushRegion) -> bool {
        &&& max_of(self.right(), other.right()) - min_of(self.x as int, other.x as int) < 0x1_0000
        &&& max_of(self.bottom(), other.bottom()) - min_of(self.y as int, other.y as int)
            < 0x1_0000
    }

    /// The region from corner and size; of each number the low sixteen bits are kept.
    pub fn new(x: i32, y: i32, w: i32, h: i32) -> (r: Self)
        ensures
            r.x == low16(x as int),
            r.y == low16(y as int),
            r.w == low16(w as int),
            r.h == low16(h as int),
    {
        FlushRegion { x: to_low16(x), y: to_low16(y), w: to_low16(w), h: to_low16(h) }
    }

    /// The region that [`FlushRegion::union`] returns.
    pub open spec fn union_spec(self, other: FlushRegion) -> FlushRegion {
        let x = min_of(self.x as int, other.x as int);
        let y = min_of(self.y as int, other.y as int);
        FlushRegion {
            x: x as u16,
            y: y as u16,
            w: low16(max_of(self.right(), other.right()) - x) as u16,
            h: low16(max_of(self.bottom(), other.bottom()) - y) as u16,
        }
    }

    /// The smallest region around both, its size taken modulo sixteen bits.
    pub fn union(self, other: Self) -> (r: Self)
        ensures
            r == self.union_spec(other),
            self.span_fits(other) ==> r.right() == max_of(self.right(), other.right())
                && r.bottom() == max_of(self.bottom(), other.bottom()),
    {
        let x1: i32 = (self.x as i32).min(other.x as i32);
        let y1: i32 = (self.y as i32).min(other.y as i32);
        let x2: i32 = (self.x as i32 + self.w as i32).max(other.x as i32 + other.w as i32);
        let y2: i32 = (self.y as i32 + self.h as i32).max(other.y as i32 + other.h as i32);
        Self::new(x1, y1, x2 - x1, y2 - y1)
    }
}

/// The union of two regions covers both of them, wherever its size fits.
pub proof fn law_union_encloses_both(a: FlushRegion, b: FlushRegion)
    requires
        a.span_fits(b),
    ensures
        a.union_spec(b).encloses(a),
        a.union_spec(b).encloses(b),
{
}

/// No region that covers two non-empty regions is smaller than their union: it covers the
/// union as well.
pub proof fn law_union_is_smallest(a: FlushRegion, b: FlushRegion, c: FlushRegion)
    requires
        a.span_fits(b),
        a.w > 0 && a.h > 0,
        b.w > 0 && b.h > 0,
        c.encloses(a),
        c.encloses(b),
    ensures
        c.encloses(a.union_spec(b)),
{
    assert(a.covers(a.x as int, a.y as int));
    assert(a.covers(a.right() - 1, a.bottom() - 1));
    assert(b.covers(b.x as int, b.y as int));
    assert(b.covers(b.right() - 1, b.bottom() - 1));
}

/// The order of the two regions does not matter.
pub proof fn law_union_commutes(a: FlushRegion, b: FlushRegion)
    ensures
        a.union_spec(b) == b.union_spec(a),
{
}

/// The union of a region with itself is that region.
pub proof fn law_union_idempotent(a: FlushRegion)
    ensures
        a.union_spec(a) == a,
{
}

/// Where its size fits, the union spans exactly from the smaller corner to the larger end.
pub proof fn law_union_spans(a: FlushRegion, b: FlushRegion)
    requires
        a.span_fits(b),
    ensures
        a.union_spec(b).x == min_of(a.x as int, b.x as int),
        a.union_spec(b).y == min_of(a.y as int, b.y as int),
        a.union_spec(b).right() == max_of(a.right(), b.right()),
        a.union_spec(b).bottom() == max_of(a.bottom(), b.bottom()),
{
}

/// Several regions can be joined in any grouping, wherever the sizes fit.
pub proof fn law_union_associates(a: FlushRegion, b: FlushRegion, c: FlushRegion)
    requires
        a.span_fits(b),
        a.union_spec(b).span_fits(c),
    ensures
        a.union_spec(b).union_spec(c) == a.union_spec(b.union_spec(c)),
{
    law_union_spans(a, b);
    law_union_spans(b, c);
    law_union_spans(a.union_spec(b), c);
    law_union_spans(a, b.union_spec(c));
    let l = a.union_spec(b).union_spec(c);
    let r = a.union_spec(b.union_spec(c));
    assert(l.x == r.x && l.y == r.y && l.right() == r.right() && l.bottom() == r.bottom());
}

} // verus!
