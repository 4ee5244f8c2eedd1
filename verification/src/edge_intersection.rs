use vstd::prelude::*;
use core::cmp::Ordering;
use vstd::std_specs::cmp::PartialEqSpecImpl;
use vstd::std_specs::cmp::PartialOrdSpecImpl;
use vstd::std_specs::cmp::PartialEqSpec;
use vstd::std_specs::cmp::PartialOrdSpec;

use crate::coord::{Coord, Line};

verus! {

/// `-1` when the segment runs in the negative direction along an axis, `+1`
/// otherwise (a zero delta counts as positive).
pub open spec fn direction_of(delta: int) -> int {
    if delta < 0 {
        -1
    } else {
        1
    }
}

/// Absolute value of an integer.
pub open spec fn abs_of(v: int) -> int {
    if v < 0 {
        -v
    } else {
        v
    }
}

/// Position of `coord` along `segment`, as the lexicographic pair
/// `(major, minor)`: `major` is the ordinate along the axis in which the
/// segment extends further (the y axis on a tie), and each ordinate is
/// negated when the segment runs in the negative direction along that axis.
pub open spec fn position_of(coord: Coord, segment: Line) -> (int, int) {
    let dx = segment.end.x - segment.start.x;
    let dy = segment.end.y - segment.start.y;
    let x = coord.x * direction_of(dx);
    let y = coord.y * direction_of(dy);
    if abs_of(dx) > abs_of(dy) {
        (x, y)
    } else {
        (y, x)
    }
}

/// The mathematical value of an ordinate.
pub open spec fn widen(v: i128) -> int {
    v as int
}

/// Three-way comparison of two integers.
pub open spec fn compare_int(a: int, b: int) -> Ordering {
    if a < b {
        Ordering::Less
    } else if a == b {
        Ordering::Equal
    } else {
        Ordering::Greater
    }
}

/// `first`, unless it is `Equal`, in which case `next` decides.
pub open spec fn then_compare(first: Ordering, next: Ordering) -> Ordering {
    match first {
        Ordering::Equal => next,
        _ => first,
    }
}

/// The sort key of an intersection: its segment index, then its position
/// along the segment.
pub open spec fn key_of(segment_index: usize, position: (int, int)) -> (int, int, int) {
    (segment_index as int, position.0, position.1)
}

/// Lexicographic comparison of two sort keys.
pub open spec fn compare_keys(a: (int, int, int), b: (int, int, int)) -> Ordering {
    then_compare(compare_int(a.0, b.0), then_compare(compare_int(a.1, b.1), compare_int(a.2, b.2)))
}

/// The sort key of the intersection at `coord` on segment `segment_index`,
/// which is `segment`.
pub open spec fn intersection_key(coord: Coord, segment_index: usize, segment: Line) -> (
    int,
    int,
    int,
) {
    key_of(segment_index, position_of(coord, segment))
}

/// Represents a point on an edge which intersects with another edge.
///
/// The intersection may either be a single point, or a line segment (in which
/// case this point is the start of the line segment). Intersections are ordered
/// by their position along the edge: first by the segment they fall on, then
/// by where they fall within that segment.
#[derive(Debug, Clone)]
pub struct EdgeIntersection {
    coord: Coord,
    segment_index: usize,
    /// Whether `coord` is the start vertex of segment `segment_index`.
    is_at_segment_start: bool,
    /// Position of `coord` along its segment, `[major, minor]`; see
    /// `position_of`.
    position: [i128; 2],
}

fn direction(delta: i128) -> (d: i128)
    ensures
        d == direction_of(delta as int),
{
    if delta < 0 {
        -1
    } else {
        1
    }
}

impl EdgeIntersection {
    /// The intersection point.
    pub closed spec fn coord_spec(&self) -> Coord {
        self.coord
    }

    /// The index of the segment the intersection lies on.
    pub closed spec fn segment_index_spec(&self) -> usize {
        self.segment_index
    }

    /// Whether the intersection is the start vertex of its segment.
    pub closed spec fn is_at_segment_start_spec(&self) -> bool {
        self.is_at_segment_start
    }

    /// The position of the intersection along its segment.
    pub closed spec fn position_spec(&self) -> (int, int) {
        (self.position[0] as int, self.position[1] as int)
    }

    /// The sort key of the intersection.
    pub open spec fn key(&self) -> (int, int, int) {
        key_of(self.segment_index_spec(), self.position_spec())
    }

    /// `segment` must be the segment `segment_index` of the edge this
    /// intersection lies on.
    pub fn new(coord: Coord, segment_index: usize, segment: Line) -> (r: EdgeIntersection)
        ensures
            r.coord_spec() == coord,
            r.segment_index_spec() == segment_index,
            r.is_at_segment_start_spec() == (coord == segment.start),
            r.position_spec() == position_of(coord, segment),
            r.key() == intersection_key(coord, segment_index, segment),
    {
        let dx: i128 = segment.end.x as i128 - segment.start.x as i128;
        let dy: i128 = segment.end.y as i128 - segment.start.y as i128;
        let sx = direction(dx);
        let sy = direction(dy);
        assert(sx == 1 || sx == -1);
        assert(sy == 1 || sy == -1);
        let cx: i128 = coord.x as i128;
        let cy: i128 = coord.y as i128;
        assert(cx * sx == if sx == 1 { cx as int } else { -cx }) by (nonlinear_arith)
            requires
                sx == 1 || sx == -1,
        ;
        assert(cy * sy == if sy == 1 { cy as int } else { -cy }) by (nonlinear_arith)
            requires
                sy == 1 || sy == -1,
        ;
        let x: i128 = cx * sx;
        let y: i128 = cy * sy;
        let adx: i128 = if dx < 0 { -dx } else { dx };
        let ady: i128 = if dy < 0 { -dy } else { dy };
        // On a tie the y axis is the major axis.
        let position = if adx > ady { [x, y] } else { [y, x] };
        EdgeIntersection {
            coord,
            segment_index,
            is_at_segment_start: coord == segment.start,
            position,
        }
    }

    /// The intersection point.
    pub fn coordinate(&self) -> (c: Coord)
        ensures
            c == self.coord_spec(),
    {
        self.coord
    }

    /// The index of the segment the intersection lies on.
    pub fn segment_index(&self) -> (i: usize)
        ensures
            i == self.segment_index_spec(),
    {
        self.segment_index
    }

    /// Whether this intersection lies exactly on the start vertex of its segment.
    pub fn is_at_segment_start(&self) -> (b: bool)
        ensures
            b == self.is_at_segment_start_spec(),
    {
        self.is_at_segment_start
    }

    /// Orders intersections along their edge: by segment index, then by the
    /// major and then the minor component of their position on the segment.
    pub fn cmp(&self, other: &EdgeIntersection) -> (o: Ordering)
        ensures
            o == compare_keys(self.key(), other.key()),
    {
        let by_segment = if self.segment_index < other.segment_index {
            Ordering::Less
        } else if self.segment_index == other.segment_index {
            Ordering::Equal
        } else {
            Ordering::Greater
        };
        match by_segment {
            Ordering::Equal => {
                let by_major = compare_ordinate(self.position[0], other.position[0]);
                match by_major {
                    Ordering::Equal => compare_ordinate(self.position[1], other.position[1]),
                    _ => by_major,
                }
            },
            _ => by_segment,
        }
    }
}

fn compare_ordinate(a: i128, b: i128) -> (o: Ordering)
    ensures
        o == compare_int(widen(a), widen(b)),
{
    if a < b {
        Ordering::Less
    } else if a == b {
        Ordering::Equal
    } else {
        Ordering::Greater
    }
}

impl PartialEq for EdgeIntersection {
    /// Defined through `cmp`, so that equality can never disagree with the
    /// ordering.
    fn eq(&self, other: &EdgeIntersection) -> (r: bool) {
        match self.cmp(other) {
            Ordering::Equal => true,
            _ => false,
        }
    }
}

impl PartialEqSpecImpl for EdgeIntersection {
    open spec fn obeys_eq_spec() -> bool {
        true
    }

    open spec fn eq_spec(&self, other: &EdgeIntersection) -> bool {
        compare_keys(self.key(), other.key()) == Ordering::Equal
    }
}

impl Eq for EdgeIntersection {
}

impl PartialOrd for EdgeIntersection {
    fn partial_cmp(&self, other: &EdgeIntersection) -> (r: Option<Ordering>) {
        Some(self.cmp(other))
    }
}

impl PartialOrdSpecImpl for EdgeIntersection {
    open spec fn obeys_partial_cmp_spec() -> bool {
        true
    }

    open spec fn partial_cmp_spec(&self, other: &EdgeIntersection) -> Option<Ordering> {
        Some(compare_keys(self.key(), other.key()))
    }
}


/// Intersections are totally ordered: every intersection equals itself,
/// swapping the operands reverses the comparison, and `Less` and `Equal`
/// chain transitively.
pub proof fn law_cmp_is_total_order(a: EdgeIntersection, b: EdgeIntersection, c: EdgeIntersection)
    ensures
        compare_keys(a.key(), a.key()) == Ordering::Equal,
        compare_keys(a.key(), b.key()) == Ordering::Less <==> compare_keys(b.key(), a.key())
            == Ordering::Greater,
        compare_keys(a.key(), b.key()) == Ordering::Equal <==> compare_keys(b.key(), a.key())
            == Ordering::Equal,
        compare_keys(a.key(), b.key()) == Ordering::Equal <==> a.key() == b.key(),
        compare_keys(a.key(), b.key()) == Ordering::Less && compare_keys(b.key(), c.key())
            == Ordering::Less ==> compare_keys(a.key(), c.key()) == Ordering::Less,
        compare_keys(a.key(), b.key()) == Ordering::Equal && compare_keys(b.key(), c.key())
            == Ordering::Equal ==> compare_keys(a.key(), c.key()) == Ordering::Equal,
{
}

/// Intersections are ordered first by the segment they fall on: one on an
/// earlier segment comes before one on a later segment, wherever they lie
/// within their segments.
pub proof fn law_earlier_segment_comes_first(a: EdgeIntersection, b: EdgeIntersection)
    requires
        a.segment_index_spec() < b.segment_index_spec(),
    ensures
        compare_keys(a.key(), b.key()) == Ordering::Less,
{
}

/// Within one segment the position is the coordinate up to sign flips, so two
/// intersections on the same segment compare `Equal` exactly when they are at
/// the same coordinate.
pub proof fn law_equal_on_segment_iff_same_coordinate(
    p: Coord,
    q: Coord,
    segment_index: usize,
    segment: Line,
)
    ensures
        compare_keys(
            intersection_key(p, segment_index, segment),
            intersection_key(q, segment_index, segment),
        ) == Ordering::Equal <==> p == q,
{
    let dx = segment.end.x - segment.start.x;
    let dy = segment.end.y - segment.start.y;
    let sx = direction_of(dx);
    let sy = direction_of(dy);
    assert(p.x * sx == q.x * sx ==> p.x == q.x) by (nonlinear_arith)
        requires
            sx == 1 || sx == -1,
    ;
    assert(p.y * sy == q.y * sy ==> p.y == q.y) by (nonlinear_arith)
        requires
            sy == 1 || sy == -1,
    ;
}

/// If moving from `p` to `q` is moving forward along `segment`, then `q - p`
/// points the same way as `segment.end - segment.start`.
pub open spec fn moves_forward_along(p: Coord, q: Coord, segment: Line) -> bool {
    let dx = segment.end.x - segment.start.x;
    let dy = segment.end.y - segment.start.y;
    let a = q.x - p.x;
    let b = q.y - p.y;
    &&& a * dy == b * dx
    &&& a * dx + b * dy > 0
}

proof fn lemma_forward_sign(a: int, b: int, dx: int, dy: int)
    requires
        a * dy == b * dx,
        a * dx + b * dy > 0,
    ensures
        dx > 0 ==> a > 0,
        dx < 0 ==> a < 0,
        dy > 0 ==> b > 0,
        dy < 0 ==> b < 0,
{
    assert(dx * (a * dx + b * dy) == a * (dx * dx + dy * dy)) by (nonlinear_arith)
        requires
            a * dy == b * dx,
    ;
    assert(dy * (a * dx + b * dy) == b * (dx * dx + dy * dy)) by (nonlinear_arith)
        requires
            a * dy == b * dx,
    ;
    assert(dx > 0 ==> dx * (a * dx + b * dy) > 0) by (nonlinear_arith)
        requires
            a * dx + b * dy > 0,
    ;
    assert(dx < 0 ==> dx * (a * dx + b * dy) < 0) by (nonlinear_arith)
        requires
            a * dx + b * dy > 0,
    ;
    assert(dy > 0 ==> dy * (a * dx + b * dy) > 0) by (nonlinear_arith)
        requires
            a * dx + b * dy > 0,
    ;
    assert(dy < 0 ==> dy * (a * dx + b * dy) < 0) by (nonlinear_arith)
        requires
            a * dx + b * dy > 0,
    ;
    assert(a * (dx * dx + dy * dy) > 0 ==> (dx * dx + dy * dy > 0 ==> a > 0)) by (nonlinear_arith);
    assert(a * (dx * dx + dy * dy) < 0 ==> (dx * dx + dy * dy > 0 ==> a < 0)) by (nonlinear_arith);
    assert(b * (dx * dx + dy * dy) > 0 ==> (dx * dx + dy * dy > 0 ==> b > 0)) by (nonlinear_arith);
    assert(b * (dx * dx + dy * dy) < 0 ==> (dx * dx + dy * dy > 0 ==> b < 0)) by (nonlinear_arith);
    assert(dx != 0 ==> dx * dx + dy * dy > 0) by (nonlinear_arith);
    assert(dy != 0 ==> dx * dx + dy * dy > 0) by (nonlinear_arith);
}

/// The position increases from the segment's start towards its end: of two
/// intersections on the same segment, the one further along the segment's
/// direction comes later.
pub proof fn law_position_increases_along_segment(
    p: Coord,
    q: Coord,
    segment_index: usize,
    segment: Line,
)
    requires
        moves_forward_along(p, q, segment),
    ensures
        compare_keys(
            intersection_key(p, segment_index, segment),
            intersection_key(q, segment_index, segment),
        ) == Ordering::Less,
{
    let dx = segment.end.x - segment.start.x;
    let dy = segment.end.y - segment.start.y;
    let a = q.x - p.x;
    let b = q.y - p.y;
    lemma_forward_sign(a, b, dx, dy);
    assert(dx != 0 || dy != 0) by (nonlinear_arith)
        requires
            a * dx + b * dy > 0,
    ;
    let sx = direction_of(dx);
    let sy = direction_of(dy);
    if abs_of(dx) > abs_of(dy) {
        assert(p.x * sx < q.x * sx) by (nonlinear_arith)
            requires
                (sx == 1 && q.x - p.x > 0) || (sx == -1 && q.x - p.x < 0),
        ;
    } else {
        assert(p.y * sy < q.y * sy) by (nonlinear_arith)
            requires
                (sy == 1 && q.y - p.y > 0) || (sy == -1 && q.y - p.y < 0),
        ;
    }
}

/// `a` was made for `segment` (as `EdgeIntersection::new` makes it): its
/// position is that of its coordinate along `segment`.
pub open spec fn made_for(a: EdgeIntersection, segment: Line) -> bool {
    a.position_spec() == position_of(a.coord_spec(), segment)
}

/// `partial_cmp` (and so `<`, `<=`, `>`, `>=`) always gives an answer and
/// orders intersections along their edge: an intersection on an earlier
/// segment first; on one segment, the one further along the segment's
/// direction later; the same point on the same segment `Equal`. Swapping the
/// operands reverses the answer.
pub proof fn law_partial_cmp_follows_the_edge(a: EdgeIntersection, b: EdgeIntersection, segment: Line)
    ensures
        PartialOrdSpec::partial_cmp_spec(&a, &b) is Some,
        PartialOrdSpec::partial_cmp_spec(&a, &b) == Some(Ordering::Less) <==> PartialOrdSpec::partial_cmp_spec(&b, &a) == Some(
            Ordering::Greater,
        ),
        PartialOrdSpec::partial_cmp_spec(&a, &b) == Some(Ordering::Equal) <==> PartialOrdSpec::partial_cmp_spec(&b, &a) == Some(
            Ordering::Equal,
        ),
        a.segment_index_spec() < b.segment_index_spec() ==> PartialOrdSpec::partial_cmp_spec(&a, &b) == Some(
            Ordering::Less,
        ),
        a.segment_index_spec() > b.segment_index_spec() ==> PartialOrdSpec::partial_cmp_spec(&a, &b) == Some(
            Ordering::Greater,
        ),
        made_for(a, segment) && made_for(b, segment) && a.segment_index_spec()
            == b.segment_index_spec() && moves_forward_along(a.coord_spec(), b.coord_spec(), segment)
            ==> PartialOrdSpec::partial_cmp_spec(&a, &b) == Some(Ordering::Less),
        made_for(a, segment) && made_for(b, segment) && a.segment_index_spec()
            == b.segment_index_spec() && moves_forward_along(b.coord_spec(), a.coord_spec(), segment)
            ==> PartialOrdSpec::partial_cmp_spec(&a, &b) == Some(Ordering::Greater),
        made_for(a, segment) && made_for(b, segment) && a.segment_index_spec()
            == b.segment_index_spec() && a.coord_spec() == b.coord_spec() ==> PartialOrdSpec::partial_cmp_spec(&a, &b)
            == Some(Ordering::Equal),
{
    law_cmp_is_total_order(a, b, b);
    if made_for(a, segment) && made_for(b, segment) && a.segment_index_spec()
        == b.segment_index_spec() {
        if moves_forward_along(a.coord_spec(), b.coord_spec(), segment) {
            law_position_increases_along_segment(
                a.coord_spec(),
                b.coord_spec(),
                a.segment_index_spec(),
                segment,
            );
        }
        if moves_forward_along(b.coord_spec(), a.coord_spec(), segment) {
            law_position_increases_along_segment(
                b.coord_spec(),
                a.coord_spec(),
                a.segment_index_spec(),
                segment,
            );
        }
    }
}

/// `==` on intersections is an equivalence that agrees with the ordering:
/// it is reflexive and symmetric, holds exactly when `partial_cmp` gives
/// `Equal`, only between intersections on the same segment, and, on one
/// segment, exactly between intersections at the same point.
pub proof fn law_eq_is_same_point_on_same_segment(
    a: EdgeIntersection,
    b: EdgeIntersection,
    c: EdgeIntersection,
    segment: Line,
)
    ensures
        PartialEqSpec::eq_spec(&a, &a),
        PartialEqSpec::eq_spec(&a, &b) == PartialEqSpec::eq_spec(&b, &a),
        PartialEqSpec::eq_spec(&a, &b) && PartialEqSpec::eq_spec(&b, &c) ==> PartialEqSpec::eq_spec(&a, &c),
        PartialEqSpec::eq_spec(&a, &b) <==> PartialOrdSpec::partial_cmp_spec(&a, &b) == Some(Ordering::Equal),
        PartialEqSpec::eq_spec(&a, &b) ==> a.segment_index_spec() == b.segment_index_spec(),
        made_for(a, segment) && made_for(b, segment) && a.segment_index_spec()
            == b.segment_index_spec() ==> (PartialEqSpec::eq_spec(&a, &b) <==> a.coord_spec() == b.coord_spec()),
{
    law_cmp_is_total_order(a, b, c);
    if made_for(a, segment) && made_for(b, segment) && a.segment_index_spec()
        == b.segment_index_spec() {
        law_equal_on_segment_iff_same_coordinate(
            a.coord_spec(),
            b.coord_spec(),
            a.segment_index_spec(),
            segment,
        );
    }
}

} // verus!
