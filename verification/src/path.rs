//! The painted path: an ordered polyline with an exact circle-intersection
//! query.  Distances are compared through squared magnitudes and
//! cross-multiplication, so no square root and no rounding is involved:
//! the executable query returns exactly what the specification predicate
//! `segment_within` says.

use vstd::prelude::*;

use crate::{COORD_LIMIT, HALF_LINE_WIDTH, RADIUS_LIMIT};

verus! {

/// A point of the plane, in thousandths of a pixel.
#[derive(Clone, Copy, PartialEq, Eq, Structural, Debug)]
pub struct Point {
    pub x: i64,
    pub y: i64,
}

impl Point {
    /// Both coordinates lie within the world the geometry can measure.
    pub open spec fn in_bounds(self) -> bool {
        &&& -COORD_LIMIT <= self.x <= COORD_LIMIT
        &&& -COORD_LIMIT <= self.y <= COORD_LIMIT
    }

    pub fn new(x: i64, y: i64) -> (p: Point)
        ensures
            p.x == x,
            p.y == y,
    {
        Point { x, y }
    }
}

/// Squared Euclidean distance between `(ax, ay)` and `(bx, by)`.
pub open spec fn dist_sq(ax: int, ay: int, bx: int, by: int) -> int {
    (ax - bx) * (ax - bx) + (ay - by) * (ay - by)
}

/// The segment from `a` to `b` passes within distance `rad` of `p`.
///
/// The minimum distance from `p` to the segment is found by projecting `p`
/// onto the segment's carrier line and clamping the projection parameter
/// to the segment.  Writing `d = b - a`, `len_sq = |d|^2` and
/// `dot = (p - a) . d`, the projection parameter is `dot / len_sq`:
/// - a zero-length segment is just the point `a`;
/// - `dot <= 0` clamps to endpoint `a`, `dot >= len_sq` clamps to `b`;
/// - otherwise the squared distance to the line is
///   `(|p - a|^2 * len_sq - dot^2) / len_sq`, and comparing it against
///   `rad^2` is done exactly by cross-multiplying with `len_sq > 0`.
pub open spec fn segment_within(a: Point, b: Point, p: Point, rad: int) -> bool {
    let dxv = b.x - a.x;
    let dyv = b.y - a.y;
    let len_sq = dxv * dxv + dyv * dyv;
    let dot = (p.x - a.x) * dxv + (p.y - a.y) * dyv;
    if len_sq == 0 {
        dist_sq(p.x as int, p.y as int, a.x as int, a.y as int) <= rad * rad
    } else if dot <= 0 {
        dist_sq(p.x as int, p.y as int, a.x as int, a.y as int) <= rad * rad
    } else if dot >= len_sq {
        dist_sq(p.x as int, p.y as int, b.x as int, b.y as int) <= rad * rad
    } else {
        dist_sq(p.x as int, p.y as int, a.x as int, a.y as int) * len_sq - dot * dot
            <= rad * rad * len_sq
    }
}

/// Executable, exact form of `segment_within`.
fn segment_hit(a: Point, b: Point, p: Point, rad: i64) -> (hit: bool)
    requires
        a.in_bounds(),
        b.in_bounds(),
        p.in_bounds(),
        0 <= rad <= RADIUS_LIMIT + HALF_LINE_WIDTH,
    ensures
        hit == segment_within(a, b, p, rad as int),
{
    let dxv: i128 = b.x as i128 - a.x as i128;
    let dyv: i128 = b.y as i128 - a.y as i128;
    let pax: i128 = p.x as i128 - a.x as i128;
    let pay: i128 = p.y as i128 - a.y as i128;
    proof {
        assert(0 <= dxv * dxv <= 1_600_000_000_000_000 && 0 <= dyv * dyv
            <= 1_600_000_000_000_000 && 0 <= pax * pax <= 1_600_000_000_000_000 && 0 <= pay * pay
            <= 1_600_000_000_000_000 && -1_600_000_000_000_000 <= pax * dxv
            <= 1_600_000_000_000_000 && -1_600_000_000_000_000 <= pay * dyv
            <= 1_600_000_000_000_000) by (nonlinear_arith)
            requires
                -40_000_000 <= dxv <= 40_000_000,
                -40_000_000 <= dyv <= 40_000_000,
                -40_000_000 <= pax <= 40_000_000,
                -40_000_000 <= pay <= 40_000_000,
        ;
    }
    let len_sq: i128 = dxv * dxv + dyv * dyv;
    let dot: i128 = pax * dxv + pay * dyv;
    let d2a: i128 = pax * pax + pay * pay;
    proof {
        assert(0 <= (rad as int) * (rad as int) <= 2_000_000_000_000_000) by (nonlinear_arith)
            requires
                0 <= rad <= 1_030_000,
        ;
    }
    let rr: i128 = rad as i128 * rad as i128;
    if len_sq == 0 {
        d2a <= rr
    } else if dot <= 0 {
        d2a <= rr
    } else if dot >= len_sq {
        let pbx: i128 = p.x as i128 - b.x as i128;
        let pby: i128 = p.y as i128 - b.y as i128;
        proof {
            assert(0 <= pbx * pbx <= 1_600_000_000_000_000 && 0 <= pby * pby
                <= 1_600_000_000_000_000) by (nonlinear_arith)
                requires
                    -40_000_000 <= pbx <= 40_000_000,
                    -40_000_000 <= pby <= 40_000_000,
            ;
        }
        let d2b: i128 = pbx * pbx + pby * pby;
        d2b <= rr
    } else {
        proof {
            assert(d2a * len_sq <= 0x10000000000000000000000000000000int && dot * dot
                <= 0x10000000000000000000000000000000int && rr * len_sq
                <= 0x10000000000000000000000000000000int) by (nonlinear_arith)
                requires
                    0 <= d2a <= 3_200_000_000_000_000,
                    0 <= len_sq <= 3_200_000_000_000_000,
                    0 <= dot <= 3_200_000_000_000_000,
                    0 <= rr <= 2_000_000_000_000_000,
            ;
        }
        d2a * len_sq - dot * dot <= rr * len_sq
    }
}

/// The polyline `s` has a segment passing within distance `rad` of `center`.
pub open spec fn path_hit(s: Seq<Point>, center: Point, rad: int) -> bool {
    exists|i: int|
        0 <= i < s.len() - 1 && #[trigger] segment_within(s[i], s[i + 1], center, rad)
}

/// An ordered polyline of at least two in-bounds points; consecutive
/// points form the connected segments of the drawn line.  Immutable after
/// construction.
pub struct Path {
    points: Vec<Point>,
}

impl View for Path {
    type V = Seq<Point>;

    closed spec fn view(&self) -> Seq<Point> {
        self.points@
    }
}

impl Path {
    /// A well-formed path: at least two points, all within bounds.
    pub open spec fn wf(&self) -> bool {
        &&& self@.len() >= 2
        &&& forall|i: int| 0 <= i < self@.len() ==> (#[trigger] self@[i]).in_bounds()
    }

    /// Builds a path from its points.  A polyline of fewer than two
    /// points, or one leaving the measurable world, is rejected outright.
    pub fn new(points: Vec<Point>) -> (r: Option<Path>)
        ensures
            r is Some <==> (points@.len() >= 2 && forall|i: int|
                0 <= i < points@.len() ==> (#[trigger] points@[i]).in_bounds()),
            r is Some ==> r->0@ == points@ && r->0.wf(),
    {
        if points.len() < 2 {
            return None;
        }
        let n = points.len();
        let mut i: usize = 0;
        while i < n
            invariant
                n == points@.len(),
                0 <= i <= n,
                forall|j: int| 0 <= j < i ==> (#[trigger] points@[j]).in_bounds(),
            decreases n - i,
        {
            let p = points[i];
            if p.x < -COORD_LIMIT || p.x > COORD_LIMIT || p.y < -COORD_LIMIT || p.y > COORD_LIMIT {
                return None;
            }
            i += 1;
        }
        Some(Path { points })
    }

    /// Number of stored points.
    pub fn len(&self) -> (n: usize)
        ensures
            n == self@.len(),
    {
        self.points.len()
    }

    /// The stored point at `i`.
    pub fn point_at(&self, i: usize) -> (p: Point)
        requires
            i < self@.len(),
        ensures
            p == self@[i as int],
    {
        self.points[i]
    }

    /// True iff some segment of the path passes within
    /// `radius + HALF_LINE_WIDTH` of `center`: the circle of that radius
    /// overlaps the drawn line of width `LINE_WIDTH`.
    pub fn intersects_circle(&self, center: Point, radius: i64) -> (hit: bool)
        requires
            self.wf(),
            center.in_bounds(),
            0 <= radius <= RADIUS_LIMIT,
        ensures
            hit == path_hit(self@, center, radius + HALF_LINE_WIDTH),
    {
        let threshold = radius + HALF_LINE_WIDTH;
        let n = self.points.len();
        let mut i: usize = 0;
        while i < n - 1
            invariant
                n == self@.len(),
                2 <= n,
                0 <= i <= n - 1,
                self.wf(),
                center.in_bounds(),
                threshold == radius + HALF_LINE_WIDTH,
                0 <= threshold <= RADIUS_LIMIT + HALF_LINE_WIDTH,
                forall|j: int|
                    0 <= j < i ==> !(#[trigger] segment_within(
                        self@[j],
                        self@[j + 1],
                        center,
                        threshold as int,
                    )),
            decreases n - 1 - i,
        {
            if segment_hit(self.points[i], self.points[i + 1], center, threshold) {
                return true;
            }
            i += 1;
        }
        false
    }
}

/// Each endpoint of a segment lies on the segment itself: its distance to
/// the segment is zero, so it is within every nonnegative radius.
pub proof fn lemma_endpoint_on_segment(a: Point, b: Point, rad: int)
    requires
        rad >= 0,
    ensures
        segment_within(a, b, a, rad),
        segment_within(a, b, b, rad),
{
    let dxv = b.x - a.x;
    let dyv = b.y - a.y;
    assert(rad * rad >= 0) by (nonlinear_arith)
        requires
            rad >= 0,
    ;
    assert(dist_sq(a.x as int, a.y as int, a.x as int, a.y as int) == 0);
    assert(dist_sq(b.x as int, b.y as int, b.x as int, b.y as int) == 0);
    // The query point a projects to parameter 0: the dot product vanishes.
    assert((a.x - a.x) * dxv + (a.y - a.y) * dyv == 0);
    // The query point b projects to parameter 1: the dot product is len_sq.
    assert((b.x - a.x) * dxv + (b.y - a.y) * dyv == dxv * dxv + dyv * dyv) by (nonlinear_arith)
        requires
            dxv == b.x - a.x,
            dyv == b.y - a.y,
    ;
    if dxv * dxv + dyv * dyv == 0 {
        assert(dxv == 0 && dyv == 0) by (nonlinear_arith)
            requires
                dxv * dxv + dyv * dyv == 0,
        ;
        assert(dist_sq(b.x as int, b.y as int, a.x as int, a.y as int) == 0);
    }
}

/// Reversing the two endpoints of a segment does not change the query:
/// the projection parameter is recomputed consistently from whichever
/// endpoint comes first, so the minimum distance is the same.
#[verifier::rlimit(100)]
#[verifier::spinoff_prover]
pub proof fn lemma_segment_within_symmetric(a: Point, b: Point, p: Point, rad: int)
    ensures
        segment_within(a, b, p, rad) == segment_within(b, a, p, rad),
{
    let dxv = b.x - a.x;
    let dyv = b.y - a.y;
    let len_sq = dxv * dxv + dyv * dyv;
    let dot_ab = (p.x - a.x) * dxv + (p.y - a.y) * dyv;
    let dot_ba = (p.x - b.x) * (a.x - b.x) + (p.y - b.y) * (a.y - b.y);
    // Both orderings share the squared length, and the two dot products
    // are complementary: dot_ba == len_sq - dot_ab.
    assert((a.x - b.x) * (a.x - b.x) + (a.y - b.y) * (a.y - b.y) == len_sq) by (nonlinear_arith)
        requires
            dxv == b.x - a.x,
            dyv == b.y - a.y,
            len_sq == dxv * dxv + dyv * dyv,
    ;
    assert(dot_ba == len_sq - dot_ab) by (nonlinear_arith)
        requires
            dxv == b.x - a.x,
            dyv == b.y - a.y,
            len_sq == dxv * dxv + dyv * dyv,
            dot_ab == (p.x - a.x) * dxv + (p.y - a.y) * dyv,
            dot_ba == (p.x - b.x) * (a.x - b.x) + (p.y - b.y) * (a.y - b.y),
    ;
    // A sum of squares is nonnegative, so a nonzero length is positive.
    assert(len_sq >= 0) by (nonlinear_arith)
        requires
            len_sq == dxv * dxv + dyv * dyv,
    ;
    if len_sq == 0 {
        // A zero-length segment is the same point from either end.
        assert(dxv == 0 && dyv == 0) by (nonlinear_arith)
            requires
                len_sq == dxv * dxv + dyv * dyv,
                len_sq == 0,
        ;
        assert(dist_sq(p.x as int, p.y as int, a.x as int, a.y as int) == dist_sq(
            p.x as int,
            p.y as int,
            b.x as int,
            b.y as int,
        ));
    } else if 0 < dot_ab < len_sq {
        // Interior projection from both ends; the cross-multiplied
        // squared distances to the carrier line agree:
        // |p-b|^2 == |p-a|^2 - 2 dot_ab + len_sq, so
        // |p-b|^2 * len_sq - (len_sq - dot_ab)^2
        //   == |p-a|^2 * len_sq - dot_ab^2.
        let d2a = dist_sq(p.x as int, p.y as int, a.x as int, a.y as int);
        let d2b = dist_sq(p.x as int, p.y as int, b.x as int, b.y as int);
        assert(d2b == d2a - 2 * dot_ab + len_sq) by (nonlinear_arith)
            requires
                dxv == b.x - a.x,
                dyv == b.y - a.y,
                len_sq == dxv * dxv + dyv * dyv,
                dot_ab == (p.x - a.x) * dxv + (p.y - a.y) * dyv,
                d2a == (p.x - a.x) * (p.x - a.x) + (p.y - a.y) * (p.y - a.y),
                d2b == (p.x - b.x) * (p.x - b.x) + (p.y - b.y) * (p.y - b.y),
        ;
        assert(d2b * len_sq - dot_ba * dot_ba == d2a * len_sq - dot_ab * dot_ab) by (nonlinear_arith)
            requires
                d2b == d2a - 2 * dot_ab + len_sq,
                dot_ba == len_sq - dot_ab,
        ;
        let lenr = (a.x - b.x) * (a.x - b.x) + (a.y - b.y) * (a.y - b.y);
        assert(d2b * lenr == d2b * len_sq && rad * rad * lenr == rad * rad * len_sq)
            by (nonlinear_arith)
            requires
                lenr == len_sq,
        ;
        assert(segment_within(a, b, p, rad) == segment_within(b, a, p, rad));
    } else if dot_ab <= 0 {
        // Both sides clamp to the same endpoint: the one named first in
        // the forward ordering.
        assert(dot_ba >= len_sq);
        assert(segment_within(a, b, p, rad) == segment_within(b, a, p, rad));
    } else {
        assert(dot_ba <= 0);
        assert(segment_within(a, b, p, rad) == segment_within(b, a, p, rad));
    }
}

/// A circle centered exactly on a stored point overlaps the path for every
/// nonnegative radius: the point is an endpoint of some segment.
pub proof fn lemma_point_on_path_hit(s: Seq<Point>, center: Point, rad: int, j: int)
    requires
        s.len() >= 2,
        0 <= j < s.len(),
        s[j] == center,
        rad >= 0,
    ensures
        path_hit(s, center, rad),
{
    if j < s.len() - 1 {
        lemma_endpoint_on_segment(s[j], s[j + 1], rad);
        assert(segment_within(s[j], s[j + 1], center, rad));
    } else {
        lemma_endpoint_on_segment(s[j - 1], s[j], rad);
        assert(segment_within(s[j - 1], s[(j - 1) + 1], center, rad));
    }
}

} // verus!
