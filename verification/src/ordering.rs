use vstd::prelude::*;
use core::cmp::Ordering;

use crate::coord::{Coord, index_value, ordinate_value};
use crate::edge_intersection::{compare_int, then_compare};

verus! {

/// Lexicographic order of coordinates: by `x`, ties broken by `y`.
pub open spec fn lex_order(p: Coord, q: Coord) -> Ordering {
    then_compare(compare_int(ordinate_value(p.x), ordinate_value(q.x)), compare_int(ordinate_value(p.y), ordinate_value(q.y)))
}

fn compare_i64(a: i64, b: i64) -> (o: Ordering)
    ensures
        o == compare_int(ordinate_value(a), ordinate_value(b)),
{
    if a < b {
        Ordering::Less
    } else if a == b {
        Ordering::Equal
    } else {
        Ordering::Greater
    }
}

/// Compare two coordinates lexicographically: first by the x coordinate, and
/// break ties with the y coordinate.
pub fn lex_cmp(p: &Coord, q: &Coord) -> (o: Ordering)
    ensures
        o == lex_order(*p, *q),
        p.x < q.x ==> o == Ordering::Less,
        p.x > q.x ==> o == Ordering::Greater,
        p.x == q.x && p.y < q.y ==> o == Ordering::Less,
        p.x == q.x && p.y > q.y ==> o == Ordering::Greater,
        p.x == q.x && p.y == q.y ==> o == Ordering::Equal,
{
    match compare_i64(p.x, q.x) {
        Ordering::Equal => compare_i64(p.y, q.y),
        o => o,
    }
}

/// Compute index of the least point in slice. Comparison is done using
/// [`lex_cmp`]; of several least points the first one is chosen.
pub fn least_index(pts: &[Coord]) -> (i: usize)
    requires
        pts@.len() > 0,
    ensures
        i < pts@.len(),
        forall|j: int| 0 <= j < pts@.len() ==> lex_order(pts@[index_value(i)], pts@[j]) != Ordering::Greater,
        forall|j: int| 0 <= j < i ==> lex_order(pts@[j], pts@[index_value(i)]) == Ordering::Greater,
        forall|j: int|
            0 <= j < pts@.len() ==> pts@[index_value(i)].x < (#[trigger] pts@[j]).x || (pts@[index_value(i)].x
                == pts@[j].x && pts@[index_value(i)].y <= pts@[j].y),
        forall|j: int|
            0 <= j < i ==> (#[trigger] pts@[j]).x > pts@[index_value(i)].x || (pts@[j].x == pts@[index_value(i)].x
                && pts@[j].y > pts@[index_value(i)].y),
{
    let mut best: usize = 0;
    let mut k: usize = 1;
    while k < pts.len()
        invariant
            1 <= k <= pts@.len(),
            best < k,
            forall|j: int| 0 <= j < k ==> lex_order(pts@[index_value(best)], pts@[j]) != Ordering::Greater,
            forall|j: int| 0 <= j < best ==> lex_order(pts@[j], pts@[index_value(best)]) == Ordering::Greater,
        decreases pts@.len() - k,
    {
        let ghost old_best = best;
        match lex_cmp(&pts[k], &pts[best]) {
            Ordering::Less => {
                best = k;
            },
            _ => {},
        }
        proof {
            assert forall|j: int| 0 <= j <= k implies lex_order(
                pts@[index_value(best)],
                pts@[j],
            ) != Ordering::Greater by {
                law_lex_cmp_is_total_order(pts@[index_value(best)], pts@[index_value(old_best)], pts@[j]);
                law_lex_cmp_is_total_order(pts@[index_value(best)], pts@[j], pts@[j]);
            }
            assert forall|j: int| 0 <= j < best implies lex_order(
                pts@[j],
                pts@[index_value(best)],
            ) == Ordering::Greater by {
                law_lex_cmp_is_total_order(pts@[j], pts@[index_value(old_best)], pts@[index_value(best)]);
                law_lex_cmp_is_total_order(pts@[index_value(old_best)], pts@[j], pts@[index_value(best)]);
                law_lex_cmp_is_total_order(pts@[index_value(best)], pts@[j], pts@[j]);
            }
        }
        k += 1;
    }
    proof {
        assert forall|j: int| 0 <= j < pts@.len() implies pts@[index_value(best)].x < (#[trigger] pts@[j]).x || (
        pts@[index_value(best)].x == pts@[j].x && pts@[index_value(best)].y <= pts@[j].y) by {
            law_lex_cmp_orders_by_x_then_y(pts@[index_value(best)], pts@[j]);
        }
        assert forall|j: int| 0 <= j < best implies (#[trigger] pts@[j]).x > pts@[index_value(best)].x || (pts@[j].x
            == pts@[index_value(best)].x && pts@[j].y > pts@[index_value(best)].y) by {
            law_lex_cmp_orders_by_x_then_y(pts@[j], pts@[index_value(best)]);
        }
    }
    best
}

/// The lexicographic order is a total order: every coordinate equals itself,
/// swapping the operands reverses the comparison, only equal coordinates
/// compare `Equal`, and `Less` chains transitively.
pub proof fn law_lex_cmp_is_total_order(p: Coord, q: Coord, r: Coord)
    ensures
        lex_order(p, p) == Ordering::Equal,
        lex_order(p, q) == Ordering::Less <==> lex_order(q, p) == Ordering::Greater,
        lex_order(p, q) == Ordering::Equal <==> p == q,
        lex_order(p, q) == Ordering::Less && lex_order(q, r) == Ordering::Less ==> lex_order(p, r)
            == Ordering::Less,
        lex_order(p, q) != Ordering::Greater && lex_order(q, r) != Ordering::Greater ==> lex_order(
            p,
            r,
        ) != Ordering::Greater,
{
}

/// The lexicographic order compares the x ordinates as integers, and only
/// when they are equal the y ordinates as integers.
pub proof fn law_lex_cmp_orders_by_x_then_y(p: Coord, q: Coord)
    ensures
        p.x < q.x ==> lex_order(p, q) == Ordering::Less,
        p.x > q.x ==> lex_order(p, q) == Ordering::Greater,
        p.x == q.x && p.y < q.y ==> lex_order(p, q) == Ordering::Less,
        p.x == q.x && p.y > q.y ==> lex_order(p, q) == Ordering::Greater,
        p.x == q.x && p.y == q.y ==> lex_order(p, q) == Ordering::Equal,
{
}

/// The least point has the smallest x of all points and, among the points
/// with that x, the smallest y; every point before it is strictly greater.
pub proof fn law_least_index_is_least_by_x_then_y(pts: Seq<Coord>, i: int)
    requires
        0 <= i < pts.len(),
        forall|j: int| 0 <= j < pts.len() ==> lex_order(pts[i], pts[j]) != Ordering::Greater,
        forall|j: int| 0 <= j < i ==> lex_order(pts[j], pts[i]) == Ordering::Greater,
    ensures
        forall|j: int| 0 <= j < pts.len() ==> pts[i].x <= pts[j].x,
        forall|j: int| 0 <= j < pts.len() && pts[j].x == pts[i].x ==> pts[i].y <= pts[j].y,
        forall|j: int|
            0 <= j < i ==> pts[j].x > pts[i].x || (pts[j].x == pts[i].x && pts[j].y > pts[i].y),
{
    assert forall|j: int| 0 <= j < pts.len() implies pts[i].x <= pts[j].x && (pts[j].x == pts[i].x
        ==> pts[i].y <= pts[j].y) by {
        law_lex_cmp_orders_by_x_then_y(pts[i], pts[j]);
    }
    assert forall|j: int| 0 <= j < i implies pts[j].x > pts[i].x || (pts[j].x == pts[i].x
        && pts[j].y > pts[i].y) by {
        law_lex_cmp_orders_by_x_then_y(pts[j], pts[i]);
    }
}

} // verus!
