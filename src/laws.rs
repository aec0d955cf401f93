//! Properties that relate the display's functions, proved.
use vstd::prelude::*;
use crate::heading_tape::{bearing, label_start, lower_decade, pointers_drawn, tape, theta_offset, CENTER_POINTER, HEADING_TAPE_WIDTH};
use crate::hud::{advanced, hud_frame, HUD};
use crate::line::{abs, lemma_walk, line, sign, walk};
use crate::pitch_ladder::{fold_roll_spec, ladder_drawn};
use crate::projector::{next_frame, recenter, takes_cell, vector_col, vector_row, with_ratio_spec};
use crate::telemetry::{SphericalCoordinate, Telemetry};
use crate::text::label_digit;

verus! {

/// The value of a three-digit label.
pub open spec fn label_value(s: Seq<u8>) -> int {
    (s[0] - 48) * 100 + (s[1] - 48) * 10 + (s[2] - 48)
}

/// A rasterized line from left to right is gap free and monotonic: it
/// starts and ends at its endpoints, each step moves one column right or
/// stays, and moves one sub-row toward the end or stays, never neither.
pub proof fn lemma_line_gap_free(x0: int, y0: int, x1: int, y1: int)
    requires
        x0 <= x1,
    ensures
        line(x0, y0, x1, y1).len() >= 1,
        line(x0, y0, x1, y1)[0] == (x0, y0),
        line(x0, y0, x1, y1).last() == (x1, y1),
        forall|i: int| 0 <= i < line(x0, y0, x1, y1).len() - 1 ==> {
            let p = #[trigger] line(x0, y0, x1, y1)[i];
            let q = line(x0, y0, x1, y1)[i + 1];
            &&& (q.0 == p.0 || q.0 == p.0 + 1)
            &&& (q.1 == p.1 || q.1 == p.1 + sign(y0, y1))
            &&& q != p
        },
{
    let dx = abs(x1 - x0);
    let dy = abs(y1 - y0);
    let w = walk(dx, dy, 0, 0, (dx + dy) as nat);
    lemma_walk(dx, dy, 0, 0, (dx + dy) as nat);
    let l = line(x0, y0, x1, y1);
    let sx = sign(x0, x1);
    let sy = sign(y0, y1);
    assert(l.len() == w.len());
    assert forall|i: int| 0 <= i < l.len() - 1 implies {
        let p = #[trigger] l[i];
        let q = l[i + 1];
        &&& (q.0 == p.0 || q.0 == p.0 + 1)
        &&& (q.1 == p.1 || q.1 == p.1 + sy)
        &&& q != p
    } by {
        let a = w[i];
        let b = w[i + 1];
        assert(l[i] == (x0 + sx * a.0, y0 + sy * a.1));
        assert(l[i + 1] == (x0 + sx * b.0, y0 + sy * b.1));
        if x0 < x1 {
            assert(sx * (a.0 + 1) == sx * a.0 + 1);
        } else {
            assert(dx == 0);
        }
        assert(sy * (a.1 + 1) == sy * a.1 + sy) by (nonlinear_arith);
        if b == a {
        } else if b.0 != a.0 {
            assert(sx * b.0 != sx * a.0) by (nonlinear_arith)
                requires
                    sx == 1 || sx == -1,
                    b.0 != a.0,
            ;
        } else {
            assert(sy * b.1 != sy * a.1) by (nonlinear_arith)
                requires
                    sy == 1 || sy == -1,
                    b.1 != a.1,
            ;
        }
    }
    assert(l[0] == (x0 + sx * 0, y0 + sy * 0));
    assert(l.last() == l[l.len() - 1]);
    assert(w.last() == w[w.len() - 1]);
    assert(x0 + sx * dx == x1 && y0 + sy * dy == y1);
}

/// At a folded roll of exactly 90 degrees the ladder is the dedicated
/// vertical glyph down the whole centre column of the region.
pub proof fn lemma_vertical_roll(
    g: Seq<Seq<u8>>,
    top: int,
    height: int,
    width: int,
    roll: int,
    pitch: int,
    slope: int,
    fov: int,
    hpal: Seq<u8>,
    vpal: Seq<u8>,
)
    requires
        fold_roll_spec(roll) == 90,
        0 <= top,
        top + height <= g.len(),
        forall|r: int| 0 <= r < g.len() ==> #[trigger] g[r].len() == width,
        width >= 1,
    ensures
        forall|r: int| top <= r < top + height ==>
            #[trigger] ladder_drawn(g, top, height, width, roll, pitch, slope, fov, hpal, vpal)[r][width / 2] == vpal[2],
{
}

/// Every label of the heading tape reads as a decade consistent with the
/// heading: the centre one as the heading's own decade, its right
/// neighbour ten degrees on, its left neighbour ten back, all modulo 360;
/// the left neighbour may be cut by the tape's edge, and each of its cells
/// that shows is the digit of that decade.
pub proof fn lemma_tape_labels(h: int)
    requires
        0 <= h < 360,
    ensures
        label_value(tape(h).subrange(label_start(h) - 2, label_start(h) + 1)) == h - h % 10,
        label_value(tape(h).subrange(label_start(h) + 4, label_start(h) + 7)) == (h - h % 10 + 10) % 360,
        label_start(h) == 8 ==> label_value(tape(h).subrange(0, 3)) == (h - h % 10 + 350) % 360,
        forall|j: int| 0 <= j < 3 && label_start(h) >= 6 && label_start(h) - 8 + j >= 0
            ==> #[trigger] tape(h)[label_start(h) - 8 + j] == label_digit((h - h % 10 + 350) % 360, j),
{
    let l = label_start(h);
    let lower = lower_decade(h);
    assert(3 <= l <= 8);
    let t = tape(h);
    assert(t.len() == HEADING_TAPE_WIDTH);
    let c = t.subrange(l - 2, l + 1);
    assert(c[0] == label_digit(lower, 0) && c[1] == label_digit(lower, 1) && c[2] == label_digit(lower, 2));
    let n = t.subrange(l + 4, l + 7);
    let up = (lower + 10) % 360;
    assert(n[0] == label_digit(up, 0) && n[1] == label_digit(up, 1) && n[2] == label_digit(up, 2));
    assert(label_value(c) == lower);
    assert(label_value(n) == up);
    let down = (lower + 350) % 360;
    if l == 8 {
        let p = t.subrange(0, 3);
        assert(p[0] == label_digit(down, 0) && p[1] == label_digit(down, 1) && p[2] == label_digit(down, 2));
        assert(label_value(p) == down);
    }
}

/// The relative bearing does not change when either heading turns a full
/// circle.
pub proof fn lemma_bearing_rotation(h: int, s: int)
    ensures
        bearing(h + 360, s) == bearing(h, s),
        bearing(h, s + 360) == bearing(h, s),
        -180 < bearing(h, s) <= 180,
{
    assert((s - (h + 360)) % 360 == (s - h) % 360) by {
        vstd::arithmetic::div_mod::lemma_mod_sub_multiples_vanish(s - h, 360);
    }
    assert((s + 360 - h) % 360 == (s - h) % 360) by {
        vstd::arithmetic::div_mod::lemma_mod_add_multiples_vanish(s - h, 360);
    }
}

/// An azimuth given in (180, 360] lands in the same column as the same
/// azimuth less a full circle.
pub proof fn lemma_recentered_column(v: SphericalCoordinate, width: int, fov: int)
    requires
        180 < v.theta <= 360,
    ensures
        vector_col(v, width, fov) == vector_col(SphericalCoordinate { theta: (v.theta - 360) as i16, ..v }, width, fov),
{
}

/// At zero magnitude a vector sits at the centre cell whatever its angles;
/// from the low-magnitude threshold on, its cell does not depend on the
/// magnitude.
pub proof fn lemma_projection_convergence(v: SphericalCoordinate, u: SphericalCoordinate, height: int, width: int, fov_h: int, fov_w: int)
    requires
        1 <= height,
        1 <= width,
        1 <= fov_h,
        1 <= fov_w,
    ensures
        v.rho == 0 ==> vector_row(v, height, fov_h) == height / 2 && vector_col(v, width, fov_w) == width / 2,
        v.rho >= 5 && u.rho >= 5 && u.theta == v.theta && u.phi == v.phi ==> vector_row(u, height, fov_h) == vector_row(v, height, fov_h)
            && vector_col(u, width, fov_w) == vector_col(v, width, fov_w),
{
    if v.rho == 0 {
        assert(with_ratio_spec(0, v.phi as int) == 0);
        assert(with_ratio_spec(0, recenter(v.theta as int)) == 0);
    }
}

/// A widget whose cell is held by another glyph writes it on exactly one
/// of any two successive frames.
pub proof fn lemma_flicker_alternates(b: u8, counter: u8, parity: u8)
    requires
        b != 0,
        b != 32,
        parity < 2,
    ensures
        takes_cell(b, counter, parity) != takes_cell(b, next_frame(counter), parity),
{
}

/// When the steerpoint sits dead ahead, the centre cell of the pointer row
/// shows the centre pointer on even frames and the steerpoint glyph on odd
/// ones.
pub proof fn lemma_pointer_alternates(g: Seq<Seq<u8>>, r: int, theta: int, counter: u8, glyph: u8)
    requires
        0 <= r < g.len(),
        g[r].len() >= HEADING_TAPE_WIDTH,
        theta_offset(theta) == HEADING_TAPE_WIDTH / 2,
    ensures
        pointers_drawn(g, r, theta, counter, glyph)[r][(g[r].len() / 2) as int] == if counter % 2 == 0 { CENTER_POINTER } else { glyph },
        pointers_drawn(g, r, theta, next_frame(counter), glyph)[r][(g[r].len() / 2) as int] != pointers_drawn(g, r, theta, counter, glyph)[r][(g[r].len() / 2) as int]
            || glyph == CENTER_POINTER,
{
}

/// A frame depends on nothing but the grid, the compositor's state and the
/// telemetry: two compositors in the same state draw the same bytes and
/// end in the same state.
pub proof fn lemma_frame_deterministic(g: Seq<Seq<u8>>, w: int, a: HUD, b: HUD, t: Telemetry, slope: int)
    requires
        a == b,
    ensures
        hud_frame(g, w, a, t, slope) == hud_frame(g, w, b, t, slope),
        advanced(a) == advanced(b),
{
}

} // verus!
