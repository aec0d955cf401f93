//! Integer line rasterization (Bresenham's walk, all octants).
use vstd::prelude::*;

verus! {

/// Largest magnitude of an endpoint coordinate.
pub const COORD_LIMIT: i64 = 0x100_0000;

/// The walk's error term after `a` steps along x and `b` along y, for a
/// line spanning `dx` columns and `dy` rows.
pub open spec fn walk_err(dx: int, dy: int, a: int, b: int) -> int {
    dx - dy + b * dx - a * dy
}

/// Progress `(a, b)` of the walk: at each point the doubled error decides
/// whether x, y or both advance, until `(dx, dy)` is reached.
pub open spec fn walk(dx: int, dy: int, a: int, b: int, fuel: nat) -> Seq<(int, int)>
    decreases fuel,
{
    if fuel == 0 || (a == dx && b == dy) {
        seq![(a, b)]
    } else {
        let e2 = 2 * walk_err(dx, dy, a, b);
        let na = if e2 >= -dy { a + 1 } else { a };
        let nb = if e2 <= dx { b + 1 } else { b };
        seq![(a, b)] + walk(dx, dy, na, nb, (fuel - 1) as nat)
    }
}

pub open spec fn sign(from: int, to: int) -> int {
    if from < to { 1 } else { -1 }
}

pub open spec fn abs(v: int) -> int {
    if v < 0 { -v } else { v }
}

/// The cells of the line from `(x0, y0)` to `(x1, y1)`, in walking order.
pub open spec fn line(x0: int, y0: int, x1: int, y1: int) -> Seq<(int, int)> {
    let dx = abs(x1 - x0);
    let dy = abs(y1 - y0);
    walk(dx, dy, 0, 0, (dx + dy) as nat).map_values(
        |p: (int, int)| (x0 + sign(x0, x1) * p.0, y0 + sign(y0, y1) * p.1),
    )
}

/// One step of the walk from a point short of the end stays within the span
/// and advances at least one coordinate.
pub(crate) proof fn lemma_walk_step(dx: int, dy: int, a: int, b: int)
    requires
        0 <= a <= dx,
        0 <= b <= dy,
        !(a == dx && b == dy),
    ensures
        ({
            let e2 = 2 * walk_err(dx, dy, a, b);
            let na = if e2 >= -dy { a + 1 } else { a };
            let nb = if e2 <= dx { b + 1 } else { b };
            &&& na <= dx
            &&& nb <= dy
            &&& (na == a + 1 || nb == b + 1)
        }),
{
    let e = walk_err(dx, dy, a, b);
    if a == dx {
        assert(b * dx - a * dy == dx * (b - dy)) by (nonlinear_arith)
            requires
                a == dx,
        ;
        assert(dx * (b - dy) <= -dx) by (nonlinear_arith)
            requires
                dx >= 0,
                b < dy,
        ;
        assert(2 * e < -dy);
    }
    if b == dy {
        assert(b * dx - a * dy == dy * (dx - a)) by (nonlinear_arith)
            requires
                b == dy,
        ;
        assert(dy * (dx - a) >= dy) by (nonlinear_arith)
            requires
                dy >= 0,
                a < dx,
        ;
        assert(2 * e > dx);
    }
}

/// The walk starts at `(a, b)`, ends at `(dx, dy)`, and each step advances
/// x, y or both by exactly one.
pub proof fn lemma_walk(dx: int, dy: int, a: int, b: int, fuel: nat)
    requires
        0 <= a <= dx,
        0 <= b <= dy,
        fuel >= (dx - a) + (dy - b),
    ensures
        walk(dx, dy, a, b, fuel).len() >= 1,
        walk(dx, dy, a, b, fuel)[0] == (a, b),
        walk(dx, dy, a, b, fuel).last() == (dx, dy),
        forall|i: int| 0 <= i < walk(dx, dy, a, b, fuel).len() ==> {
            let p = #[trigger] walk(dx, dy, a, b, fuel)[i];
            a <= p.0 <= dx && b <= p.1 <= dy
        },
        forall|i: int| 0 <= i < walk(dx, dy, a, b, fuel).len() - 1 ==> {
            let p = #[trigger] walk(dx, dy, a, b, fuel)[i];
            let q = walk(dx, dy, a, b, fuel)[i + 1];
            &&& (q.0 == p.0 || q.0 == p.0 + 1)
            &&& (q.1 == p.1 || q.1 == p.1 + 1)
            &&& q != p
        },
    decreases fuel,
{
    if fuel == 0 || (a == dx && b == dy) {
    } else {
        lemma_walk_step(dx, dy, a, b);
        let e2 = 2 * walk_err(dx, dy, a, b);
        let na = if e2 >= -dy { a + 1 } else { a };
        let nb = if e2 <= dx { b + 1 } else { b };
        lemma_walk(dx, dy, na, nb, (fuel - 1) as nat);
        let rest = walk(dx, dy, na, nb, (fuel - 1) as nat);
        let s = walk(dx, dy, a, b, fuel);
        assert(s == seq![(a, b)] + rest);
        assert forall|i: int| 0 <= i < s.len() - 1 implies {
            let p = #[trigger] s[i];
            let q = s[i + 1];
            &&& (q.0 == p.0 || q.0 == p.0 + 1)
            &&& (q.1 == p.1 || q.1 == p.1 + 1)
            &&& q != p
        } by {
            if i > 0 {
                assert(s[i] == rest[i - 1]);
                assert(s[i + 1] == rest[i]);
            }
        }
        assert forall|i: int| 0 <= i < s.len() implies {
            let p = #[trigger] s[i];
            a <= p.0 <= dx && b <= p.1 <= dy
        } by {
            if i > 0 {
                assert(s[i] == rest[i - 1]);
            }
        }
    }
}

pub(crate) proof fn lemma_walk_unfold(dx: int, dy: int, a: int, b: int, fuel: nat)
    requires
        0 <= a <= dx,
        0 <= b <= dy,
        fuel >= (dx - a) + (dy - b),
        !(a == dx && b == dy),
    ensures
        ({
            let e2 = 2 * walk_err(dx, dy, a, b);
            let na = if e2 >= -dy { a + 1 } else { a };
            let nb = if e2 <= dx { b + 1 } else { b };
            &&& walk(dx, dy, a, b, fuel) == seq![(a, b)] + walk(dx, dy, na, nb, (fuel - 1) as nat)
            &&& 0 <= na <= dx
            &&& 0 <= nb <= dy
            &&& (fuel - 1) as nat >= (dx - na) + (dy - nb)
            &&& walk_err(dx, dy, na, b) == walk_err(dx, dy, a, b) - if na == a + 1 { dy } else { 0 }
            &&& walk_err(dx, dy, na, nb) == walk_err(dx, dy, na, b) + if nb == b + 1 { dx } else { 0 }
        }),
{
    lemma_walk_step(dx, dy, a, b);
    assert(walk_err(dx, dy, a + 1, b) == walk_err(dx, dy, a, b) - dy) by (nonlinear_arith);
    assert(walk_err(dx, dy, a + 1, b + 1) == walk_err(dx, dy, a + 1, b) + dx) by (nonlinear_arith);
    assert(walk_err(dx, dy, a, b + 1) == walk_err(dx, dy, a, b) + dx) by (nonlinear_arith);
}

/// Bounds of the error term that keep the walk's arithmetic within `i64`.
pub(crate) proof fn lemma_walk_err_bound(dx: int, dy: int, a: int, b: int)
    requires
        0 <= a <= dx <= 2 * COORD_LIMIT,
        0 <= b <= dy <= 2 * COORD_LIMIT,
    ensures
        -16 * COORD_LIMIT * COORD_LIMIT <= walk_err(dx, dy, a, b) <= 16 * COORD_LIMIT * COORD_LIMIT,
{
    assert(0 <= b * dx <= 4 * COORD_LIMIT * COORD_LIMIT) by (nonlinear_arith)
        requires
            0 <= b <= 2 * COORD_LIMIT,
            0 <= dx <= 2 * COORD_LIMIT,
    ;
    assert(0 <= a * dy <= 4 * COORD_LIMIT * COORD_LIMIT) by (nonlinear_arith)
        requires
            0 <= a <= 2 * COORD_LIMIT,
            0 <= dy <= 2 * COORD_LIMIT,
    ;
}

/// Where the walk stands in the plane after `a` and `b` steps.
pub(crate) proof fn lemma_walk_at_end(x0: int, y0: int, x1: int, y1: int, a: int, b: int)
    requires
        0 <= a <= abs(x1 - x0),
        0 <= b <= abs(y1 - y0),
    ensures
        (x0 + sign(x0, x1) * a == x1 && y0 + sign(y0, y1) * b == y1) <==> (a == abs(x1 - x0) && b == abs(y1 - y0)),
        x0 + sign(x0, x1) * (a + 1) == x0 + sign(x0, x1) * a + sign(x0, x1),
        y0 + sign(y0, y1) * (b + 1) == y0 + sign(y0, y1) * b + sign(y0, y1),
        a < abs(x1 - x0) ==> abs(x0 + sign(x0, x1) * (a + 1)) <= abs(x0) + abs(x1),
        b < abs(y1 - y0) ==> abs(y0 + sign(y0, y1) * (b + 1)) <= abs(y0) + abs(y1),
{
    assert(x0 + sign(x0, x1) * (a + 1) == x0 + sign(x0, x1) * a + sign(x0, x1)) by (nonlinear_arith);
    assert(y0 + sign(y0, y1) * (b + 1) == y0 + sign(y0, y1) * b + sign(y0, y1)) by (nonlinear_arith);
}

} // verus!
