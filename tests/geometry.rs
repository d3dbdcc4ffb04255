use plotty::geometry::{Perimeter, Point, Region};

#[test]
fn perimeter_normalize() {
    let p = Perimeter(Point(1, 2), Point(3, 4));

    let exp = Perimeter(Point(1, 2), Point(3, 4));
    assert_eq!(p.normalize(), exp);

    let exp = Perimeter(Point(1, 2), Point(3, 4));
    assert_eq!(p.normalize(), exp);

    let exp = Perimeter(Point(1, 2), Point(3, 4));
    assert_eq!(p.normalize(), exp);

    let exp = Perimeter(Point(1, 2), Point(3, 4));
    assert_eq!(p.normalize(), exp);
}

#[test]
fn perimeter_contains_point() {
    let p = Perimeter(Point(1, 2), Point(4, 5));

    assert!(p.contains_point(&Point(2, 3)));
    assert!(p.contains_point(&Point(3, 3)));
    assert!(p.contains_point(&Point(3, 4)));
    assert!(!p.contains_point(&Point(1, 1)));
    assert!(!p.contains_point(&Point(1, 2)));
    assert!(!p.contains_point(&Point(2, 2)));
    assert!(!p.contains_point(&Point(4, 3)));
}

#[test]
fn perimeter_intersects() {
    let p = Perimeter(Point(1, 2), Point(4, 5));

    let o = Perimeter(Point(3, 4), Point(5, 5));
    assert!(p.intersects(&o));
    assert!(o.intersects(&p));

    let o = Perimeter(Point(2, 3), Point(3, 1));
    assert!(p.intersects(&o));
    assert!(o.intersects(&p));

    let o = Perimeter(Point(2, 3), Point(3, 4));
    assert!(p.intersects(&o));
    assert!(o.intersects(&p));

    let o = Perimeter(Point(2, 0), Point(3, 1));
    assert!(!p.intersects(&o));
    assert!(!o.intersects(&p));

    let o = Perimeter(Point(0, 1), Point(1, 2));
    assert!(!p.intersects(&o));
    assert!(!o.intersects(&p));

    let o = Perimeter(Point(3, 2), Point(2, 1));
    assert!(!p.intersects(&o));
    assert!(!o.intersects(&p));
}

#[test]
fn normalize_swaps_each_axis_alone() {
    let p = Perimeter(Point(5, 1), Point(2, 7));
    assert_eq!(p.normalize(), Perimeter(Point(2, 1), Point(5, 7)));
    let q = Perimeter(Point(1, 9), Point(4, 3));
    assert_eq!(q.normalize(), Perimeter(Point(1, 3), Point(4, 9)));
    let r = Perimeter(Point(8, 9), Point(-4, -3));
    let n = r.normalize();
    assert_eq!(n, Perimeter(Point(-4, -3), Point(8, 9)));
    assert_eq!(n.normalize(), n);
}

#[test]
fn boundary_points_are_outside() {
    let p = Perimeter(Point(4, 5), Point(1, 2));
    for pt in [Point(1, 2), Point(4, 5), Point(1, 5), Point(4, 2), Point(1, 3), Point(4, 4), Point(2, 2), Point(3, 5)] {
        assert!(!p.contains_point(&pt));
    }
    assert!(p.contains_point(&Point(2, 3)));
}

#[test]
fn concrete_containment_and_intersection() {
    let p = Perimeter(Point(1, 2), Point(4, 5));
    assert!(p.contains_point(&Point(2, 3)));
    assert!(!p.contains_point(&Point(1, 2)));
    assert!(!p.contains_point(&Point(4, 3)));
    assert!(p.intersects(&Perimeter(Point(3, 4), Point(5, 5))));
    assert!(!p.intersects(&Perimeter(Point(2, 0), Point(3, 1))));
    assert!(!p.intersects(&Perimeter(Point(3, 2), Point(2, 1))));
}

#[test]
fn intersection_is_symmetric() {
    let shapes = [
        Perimeter(Point(0, 0), Point(10, 10)),
        Perimeter(Point(5, 5), Point(15, 15)),
        Perimeter(Point(10, 0), Point(20, 10)),
        Perimeter(Point(2, 2), Point(3, 3)),
        Perimeter(Point(-5, 4), Point(30, 6)),
    ];
    for a in shapes.iter() {
        for b in shapes.iter() {
            assert_eq!(a.intersects(b), b.intersects(a));
        }
    }
}

#[test]
fn touching_plots_do_not_intersect() {
    let a = Perimeter(Point(0, 0), Point(10, 10));
    let edge = Perimeter(Point(10, 0), Point(20, 10));
    let corner = Perimeter(Point(10, 10), Point(20, 20));
    let part_of_edge = Perimeter(Point(3, 10), Point(6, 15));
    assert!(!a.intersects(&edge));
    assert!(!a.intersects(&corner));
    assert!(!a.intersects(&part_of_edge));
    assert!(!edge.intersects(&a));
}

#[test]
fn swallowed_plot_intersects() {
    let big = Perimeter(Point(0, 0), Point(100, 100));
    let small = Perimeter(Point(40, 40), Point(60, 60));
    assert!(big.intersects(&small));
    assert!(small.intersects(&big));
    assert!(big.intersects_unidirect(&small));
    assert!(!small.intersects_unidirect(&big));
}

#[test]
fn crossing_without_corners_is_not_detected() {
    let tall = Perimeter(Point(4, 0), Point(6, 10));
    let wide = Perimeter(Point(0, 4), Point(10, 6));
    assert!(!tall.intersects(&wide));
}

#[test]
fn size_is_absolute_area() {
    assert_eq!(Perimeter(Point(1, 2), Point(4, 5)).size(), 9);
    assert_eq!(Perimeter(Point(4, 5), Point(1, 2)).size(), 9);
    assert_eq!(Perimeter(Point(0, 10), Point(3, 0)).size(), 30);
    assert_eq!(Perimeter(Point(2, 2), Point(2, 9)).size(), 0);
}

#[test]
fn region_label_gives_name_and_area() {
    let r = Region { perimeter: Perimeter(Point(0, 0), Point(-3, 4)), name: "bob_plot_1".to_string(), owner: 7 };
    assert_eq!(r.label(), "`bob_plot_1` (12m\u{b2})");
}
