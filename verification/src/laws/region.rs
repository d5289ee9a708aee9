//! Laws of the screen regions.

use vstd::prelude::*;

use crate::region::FlushRegion;

verus! {

/// Whether a pixel lies in a region.
pub open spec fn pixel_in(r: FlushRegion, px: int, py: int) -> bool {
    r.x <= px && px < r.x + r.w && r.y <= py && py < r.y + r.h
}

/// A region has the corner and the size that it is given, as far as sixteen bits hold them.
pub proof fn law_region_from_numbers(x: i32, y: i32, w: i32, h: i32, r: FlushRegion)
    requires
        call_ensures(FlushRegion::new, (x, y, w, h), r),
    ensures
        0 <= x <= 0xFFFF ==> r.x == x,
        0 <= y <= 0xFFFF ==> r.y == y,
        0 <= w <= 0xFFFF ==> r.w == w,
        0 <= h <= 0xFFFF ==> r.h == h,
        (r.x - x) % 0x1_0000 == 0 && (r.y - y) % 0x1_0000 == 0,
        (r.w - w) % 0x1_0000 == 0 && (r.h - h) % 0x1_0000 == 0,
{
}

/// The union of two regions begins at the smaller column and row, and ends where the one that
/// reaches further ends; its size is kept modulo sixteen bits.
pub proof fn law_union_edges(a: FlushRegion, b: FlushRegion, r: FlushRegion)
    requires
        call_ensures(FlushRegion::union, (a, b), r),
    ensures
        r.x <= a.x && r.x <= b.x && (r.x == a.x || r.x == b.x),
        r.y <= a.y && r.y <= b.y && (r.y == a.y || r.y == b.y),
        a.x + a.w >= b.x + b.w ==> (r.x + r.w - a.x - a.w) % 0x1_0000 == 0,
        b.x + b.w >= a.x + a.w ==> (r.x + r.w - b.x - b.w) % 0x1_0000 == 0,
        a.y + a.h >= b.y + b.h ==> (r.y + r.h - a.y - a.h) % 0x1_0000 == 0,
        b.y + b.h >= a.y + a.h ==> (r.y + r.h - b.y - b.h) % 0x1_0000 == 0,
{
}

/// On a panel of at most 65535 rows and columns, the union holds every pixel of both regions, and
/// any region that holds the pixels of both, neither being empty, holds those of the union.
pub proof fn law_union_pixels(
    a: FlushRegion,
    b: FlushRegion,
    r: FlushRegion,
    other: FlushRegion,
    px: int,
    py: int,
)
    requires
        call_ensures(FlushRegion::union, (a, b), r),
        a.x + a.w <= 0xFFFF && a.y + a.h <= 0xFFFF,
        b.x + b.w <= 0xFFFF && b.y + b.h <= 0xFFFF,
    ensures
        pixel_in(a, px, py) || pixel_in(b, px, py) ==> pixel_in(r, px, py),
        ({
            &&& a.w > 0 && a.h > 0 && b.w > 0 && b.h > 0
            &&& forall|qx: int, qy: int|
                pixel_in(a, qx, qy) || pixel_in(b, qx, qy) ==> #[trigger] pixel_in(other, qx, qy)
            &&& pixel_in(r, px, py)
        }) ==> pixel_in(other, px, py),
{
    if a.w > 0 && a.h > 0 && b.w > 0 && b.h > 0 && (forall|qx: int, qy: int|
        pixel_in(a, qx, qy) || pixel_in(b, qx, qy) ==> #[trigger] pixel_in(other, qx, qy)) {
        assert(pixel_in(other, a.x as int, a.y as int));
        assert(pixel_in(other, a.x + a.w - 1, a.y + a.h - 1));
        assert(pixel_in(other, b.x as int, b.y as int));
        assert(pixel_in(other, b.x + b.w - 1, b.y + b.h - 1));
    }
}

} // verus!
