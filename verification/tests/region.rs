use waveshare_watch::region::FlushRegion;

fn region(x: u16, y: u16, w: u16, h: u16) -> FlushRegion {
    FlushRegion { x, y, w, h }
}

#[test]
fn new_keeps_the_low_sixteen_bits() {
    assert_eq!(FlushRegion::new(1, 2, 3, 4), region(1, 2, 3, 4));
    assert_eq!(FlushRegion::new(-1, 65536, 65537, i32::MIN), region(65535, 0, 1, 0));
}

#[test]
fn union_spans_both() {
    let a = region(10, 20, 5, 5);
    let b = region(30, 5, 10, 2);
    assert_eq!(a.union(b), region(10, 5, 30, 20));
}

#[test]
fn union_of_nested_regions_is_the_outer_one() {
    let outer = region(0, 0, 100, 100);
    assert_eq!(outer.union(region(10, 10, 5, 5)), outer);
}

#[test]
fn union_size_wraps_where_it_does_not_fit() {
    let a = region(0, 0, 1, 1);
    let b = region(65535, 0, 10, 1);
    assert_eq!(a.union(b), region(0, 0, 9, 1));
}

#[test]
fn union_commutes_associates_and_is_idempotent() {
    let a = region(10, 20, 5, 5);
    let b = region(30, 5, 10, 2);
    let c = region(7, 90, 1, 400);
    assert_eq!(a.union(b), b.union(a));
    assert_eq!(a.union(b).union(c), a.union(b.union(c)));
    assert_eq!(c.union(c), c);
}
