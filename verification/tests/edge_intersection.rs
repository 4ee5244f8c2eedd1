use geo::coord::{Coord, Line};
use geo::edge_intersection::EdgeIntersection;
use geo::kernels::RobustKernel;
use geo::robust_line_intersector::RobustLineIntersector;
use std::cmp::Ordering;

fn segment(x0: i64, y0: i64, x1: i64, y1: i64) -> Line {
    Line::new(Coord::new(x0, y0), Coord::new(x1, y1))
}

#[test]
fn accessors_return_what_was_given() {
    let seg = segment(0, 0, 10, 0);
    let at_start = EdgeIntersection::new(Coord::new(0, 0), 3, seg);
    assert_eq!(at_start.coordinate(), Coord::new(0, 0));
    assert_eq!(at_start.segment_index(), 3);
    assert!(at_start.is_at_segment_start());
    let inside = EdgeIntersection::new(Coord::new(4, 0), 3, seg);
    assert!(!inside.is_at_segment_start());
    let at_end = EdgeIntersection::new(Coord::new(10, 0), 3, seg);
    assert!(!at_end.is_at_segment_start());
}

#[test]
fn order_follows_a_segment_running_backwards_in_x() {
    // (10, 3) -> (2, 5): positions are of the form [-x, y].
    let seg = segment(10, 3, 2, 5);
    let start = EdgeIntersection::new(Coord::new(10, 3), 0, seg);
    let middle = EdgeIntersection::new(Coord::new(6, 4), 0, seg);
    let end = EdgeIntersection::new(Coord::new(2, 5), 0, seg);
    assert_eq!(start.cmp(&middle), Ordering::Less);
    assert_eq!(middle.cmp(&end), Ordering::Less);
    assert_eq!(start.cmp(&end), Ordering::Less);
    assert_eq!(end.cmp(&start), Ordering::Greater);
}

#[test]
fn order_uses_y_as_major_axis_on_a_tie() {
    // (0, 0) -> (4, -4): |dx| == |dy|, so y is the major axis, negated.
    let seg = segment(0, 0, 4, -4);
    let a = EdgeIntersection::new(Coord::new(1, -1), 0, seg);
    let b = EdgeIntersection::new(Coord::new(3, -3), 0, seg);
    assert_eq!(a.cmp(&b), Ordering::Less);
    // Same major ordinate: the minor one decides.
    let c = EdgeIntersection::new(Coord::new(2, -1), 0, seg);
    assert_eq!(a.cmp(&c), Ordering::Less);
    assert_eq!(c.cmp(&a), Ordering::Greater);
}

#[test]
fn vertical_and_degenerate_segments() {
    let up = segment(5, 0, 5, 10);
    let low = EdgeIntersection::new(Coord::new(5, 2), 1, up);
    let high = EdgeIntersection::new(Coord::new(5, 8), 1, up);
    assert_eq!(low.cmp(&high), Ordering::Less);
    let down = segment(5, 10, 5, 0);
    let low = EdgeIntersection::new(Coord::new(5, 2), 1, down);
    let high = EdgeIntersection::new(Coord::new(5, 8), 1, down);
    assert_eq!(high.cmp(&low), Ordering::Less);
    let point = segment(1, 1, 1, 1);
    let p = EdgeIntersection::new(Coord::new(1, 1), 0, point);
    assert!(p.is_at_segment_start());
    assert_eq!(p.cmp(&p), Ordering::Equal);
}

#[test]
fn segment_index_is_compared_first() {
    let first = EdgeIntersection::new(Coord::new(100, 100), 0, segment(0, 0, 100, 100));
    let second = EdgeIntersection::new(Coord::new(0, 0), 1, segment(0, 0, -100, -100));
    assert_eq!(first.cmp(&second), Ordering::Less);
    assert_eq!(second.cmp(&first), Ordering::Greater);
    assert!(first < second);
}

#[test]
fn equality_agrees_with_ordering() {
    let seg = segment(0, 0, 10, 5);
    let a = EdgeIntersection::new(Coord::new(4, 2), 2, seg);
    let b = EdgeIntersection::new(Coord::new(4, 2), 2, seg);
    let c = EdgeIntersection::new(Coord::new(6, 3), 2, seg);
    assert!(a == b);
    assert_eq!(a.cmp(&b), Ordering::Equal);
    assert!(a != c);
    assert_eq!(a.partial_cmp(&c), Some(Ordering::Less));
    assert_eq!(c.partial_cmp(&a), Some(Ordering::Greater));
}

#[test]
fn extreme_ordinates_do_not_overflow() {
    let seg = segment(i64::MAX, i64::MIN, i64::MIN, i64::MAX);
    let a = EdgeIntersection::new(Coord::new(i64::MAX, i64::MIN), 0, seg);
    let b = EdgeIntersection::new(Coord::new(i64::MIN, i64::MAX), 0, seg);
    assert!(a.is_at_segment_start());
    assert_eq!(a.cmp(&b), Ordering::Less);
}

#[test]
fn unit_types_construct() {
    let _ = RobustLineIntersector::new();
    let _ = RobustKernel::default();
}
