//! The attitude ladder: a horizon line tilted by roll and offset by pitch,
//! with glyphs that split each cell into finer steps.
use vstd::prelude::*;
use crate::arith::{clamp, div_trunc, tdiv};
use crate::drawable::{Align, NumOfLine};
use crate::grid::{Grid, MAX_DIM};
use crate::line::{
    abs, lemma_walk, lemma_walk_at_end, lemma_walk_err_bound, lemma_walk_unfold, line, sign, walk, walk_err, COORD_LIMIT,
};
use crate::symbol::{Symbol, SymbolIndex, SymbolTable};
use crate::telemetry::Telemetry;
use crate::{fov_height, AspectRatio, PixelRatio};

verus! {

/// Beyond this roll, in degrees either way, the line is drawn column by row.
pub const ROLL_MODE_LIMIT: i16 = 70;

/// Largest magnitude of a slope, in thousandths, that the ladder draws.
pub const SLOPE_LIMIT: i64 = 100_000;

/// Sub-row steps of the horizontal glyph palette.
pub const HORIZONTAL_STEPS: usize = 7;

/// Sub-column steps of the vertical glyph palette.
pub const VERTICAL_STEPS: usize = 5;

/// Roll folded into (-90, 90]: a line at `r` is the line at `r - 180`.
pub open spec fn fold_roll_spec(roll: int) -> int {
    if -180 <= roll <= -90 {
        roll + 180
    } else if -90 < roll <= 90 {
        roll
    } else if 90 < roll <= 180 {
        roll - 180
    } else {
        0
    }
}

/// `g` with the palette glyph for point `p` written, where `p` is in
/// sub-row units: row `y / n`, glyph `y % n` for a palette of `n` glyphs.
pub open spec fn plot_point(g: Seq<Seq<u8>>, top: int, height: int, width: int, p: (int, int), pal: Seq<u8>) -> Seq<Seq<u8>> {
    let n = pal.len() as int;
    if 0 <= p.1 && p.1 / n < height && 0 <= p.0 < width {
        g.update(top + p.1 / n, g[top + p.1 / n].update(p.0, pal[p.1 % n]))
    } else {
        g
    }
}

/// `g` with the points plotted in order.
pub open spec fn plot_points(g: Seq<Seq<u8>>, top: int, height: int, width: int, pts: Seq<(int, int)>, pal: Seq<u8>) -> Seq<Seq<u8>>
    decreases pts.len(),
{
    if pts.len() == 0 {
        g
    } else {
        plot_point(plot_points(g, top, height, width, pts.drop_last(), pal), top, height, width, pts.last(), pal)
    }
}

/// Endpoints, in sub-row units, of the horizon across a `width` x `height`
/// region: centred, shifted by pitch and tilted by the slope.
pub open spec fn horizon_ends(pitch: int, height: int, width: int, slope: int, fov: int) -> (int, int) {
    let n = HORIZONTAL_STEPS as int;
    let y_offset = tdiv(-pitch * height * n, fov) + n / 2;
    let y_center = tdiv((width / 2 * height * n / width) * slope, 1000);
    ((height / 2) * n + y_offset - y_center, (height / 2) * n + y_offset + y_center)
}

/// Sub-column, in the vertical mode, of the line on row `y`.
pub open spec fn steep_x(y: int, pitch: int, height: int, width: int, slope: int, fov: int) -> int {
    let n = VERTICAL_STEPS as int;
    let y_offset = tdiv(-pitch * height, fov);
    tdiv((y - height / 2 - y_offset) * n * 1000, slope) + width / 2 * n + n / 2
}

/// The ladder drawn into rows `[top, top + height)` of `g`, for the roll
/// folded into (-90, 90] and the slope held to `SLOPE_LIMIT`: up to
/// `ROLL_MODE_LIMIT` the horizon is walked across the full width in
/// sub-rows of the horizontal palette; at exactly 90 degrees the centre
/// column takes the vertical centre glyph on every row; in between, each row
/// takes the vertical palette's glyph at the line's sub-column (nothing for a
/// zero slope).
pub open spec fn ladder_drawn(
    g: Seq<Seq<u8>>,
    top: int,
    height: int,
    width: int,
    roll: int,
    pitch: int,
    slope: int,
    fov: int,
    hpal: Seq<u8>,
    vpal: Seq<u8>,
) -> Seq<Seq<u8>> {
    let r = fold_roll_spec(roll);
    let k = clamp(slope, -SLOPE_LIMIT, SLOPE_LIMIT as int);
    if -ROLL_MODE_LIMIT <= r <= ROLL_MODE_LIMIT {
        let ends = horizon_ends(pitch, height, width, k, fov);
        plot_points(g, top, height, width, line(0, ends.0, width, ends.1), hpal)
    } else if r == 90 {
        Seq::new(g.len(), |i: int| if top <= i < top + height { g[i].update(width / 2, vpal[2]) } else { g[i] })
    } else if k == 0 {
        g
    } else {
        Seq::new(g.len(), |i: int| {
            let x = steep_x(i - top, pitch, height, width, k, fov);
            if top <= i < top + height && 0 <= x && x / 5 < width {
                g[i].update(x / 5, vpal[x % 5])
            } else {
                g[i]
            }
        })
    }
}

pub fn fold_roll(roll: i16) -> (r: i16)
    ensures
        r == fold_roll_spec(roll as int),
        -90 < r <= 90,
{
    if -180 <= roll && roll <= -90 {
        roll + 180
    } else if -90 < roll && roll <= 90 {
        roll
    } else if 90 < roll && roll <= 180 {
        roll - 180
    } else {
        0
    }
}

pub struct Pitchladder {
    pub horizental_symbols: Vec<SymbolIndex>,
    pub vertical_symbols: Vec<SymbolIndex>,
    /// Width : height of a character cell, for the caller's slope.
    pub char_pixel_ratio: PixelRatio,
    /// Vertical field of view, in degrees.
    pub fov_height: i64,
}

} // verus!

verus! {

/// Plots `pts` into rows `[top, top + height)` with the palette.
fn plot_line(grid: &mut Grid, top: usize, height: usize, pts: &Vec<(i64, i64)>, pal: &Vec<u8>, Ghost(target): Ghost<Seq<(int, int)>>)
    requires
        old(grid).wf(),
        top + height <= old(grid)@.len(),
        pal@.len() == HORIZONTAL_STEPS,
        pts@.len() == target.len(),
        forall|i: int| 0 <= i < pts@.len() ==> (#[trigger] pts@[i]).0 == target[i].0 && pts@[i].1 == target[i].1,
    ensures
        final(grid).wf(),
        final(grid).width() == old(grid).width(),
        final(grid)@.len() == old(grid)@.len(),
        final(grid)@ == plot_points(old(grid)@, top as int, height as int, old(grid).width() as int, target, pal@),
{
    let width = grid.cols();
    let mut i: usize = 0;
    while i < pts.len()
        invariant
            grid.wf(),
            grid.width() == old(grid).width(),
            width == old(grid).width(),
            grid@.len() == old(grid)@.len(),
            top + height <= old(grid)@.len(),
            pal@.len() == HORIZONTAL_STEPS,
            pts@.len() == target.len(),
            forall|k: int| 0 <= k < pts@.len() ==> (#[trigger] pts@[k]).0 == target[k].0 && pts@[k].1 == target[k].1,
            i <= pts@.len(),
            grid@ == plot_points(old(grid)@, top as int, height as int, width as int, target.subrange(0, i as int), pal@),
        decreases pts@.len() - i,
    {
        let (x, y) = pts[i];
        proof {
            let s = target.subrange(0, i as int + 1);
            assert(s.drop_last() =~= target.subrange(0, i as int));
            assert(s.last() == target[i as int]);
        }
        if 0 <= y && y / 7 < height as i64 && 0 <= x && x < width as i64 {
            let row = top + (y / 7) as usize;
            grid.set(row, x as usize, pal[(y % 7) as usize]);
        }
        i = i + 1;
    }
    assert(target.subrange(0, i as int) =~= target);
}

/// Writes `glyph` at column `col` of every row in `[top, top + height)`.
fn plot_column(grid: &mut Grid, top: usize, height: usize, col: usize, glyph: u8)
    requires
        old(grid).wf(),
        top + height <= old(grid)@.len(),
        col < old(grid).width(),
    ensures
        final(grid).wf(),
        final(grid).width() == old(grid).width(),
        final(grid)@.len() == old(grid)@.len(),
        final(grid)@ == Seq::new(old(grid)@.len(), |i: int|
            if top <= i < top + height { old(grid)@[i].update(col as int, glyph) } else { old(grid)@[i] }),
{
    let mut y: usize = 0;
    while y < height
        invariant
            grid.wf(),
            grid.width() == old(grid).width(),
            top + height <= old(grid)@.len(),
            col < old(grid).width(),
            y <= height,
            grid@ == Seq::new(old(grid)@.len(), |i: int|
                if top <= i < top + y { old(grid)@[i].update(col as int, glyph) } else { old(grid)@[i] }),
        decreases height - y,
    {
        grid.set(top + y, col, glyph);
        y = y + 1;
        assert(grid@ =~= Seq::new(old(grid)@.len(), |i: int|
            if top <= i < top + y { old(grid)@[i].update(col as int, glyph) } else { old(grid)@[i] }));
    }
    assert(grid@ =~= Seq::new(old(grid)@.len(), |i: int|
        if top <= i < top + height { old(grid)@[i].update(col as int, glyph) } else { old(grid)@[i] }));
}

/// The steep mode: on each row, the glyph at the line's sub-column.
fn plot_steep(grid: &mut Grid, top: usize, height: usize, pitch: i64, slope: i64, fov: i64, pal: &Vec<u8>)
    requires
        old(grid).wf(),
        1 <= height,
        top + height <= old(grid)@.len(),
        pal@.len() == VERTICAL_STEPS,
        -128 <= pitch <= 128,
        slope != 0,
        -SLOPE_LIMIT <= slope <= SLOPE_LIMIT,
        fov >= 1,
    ensures
        final(grid).wf(),
        final(grid).width() == old(grid).width(),
        final(grid)@.len() == old(grid)@.len(),
        final(grid)@ == Seq::new(old(grid)@.len(), |i: int| {
            let x = steep_x(i - top, pitch as int, height as int, old(grid).width() as int, slope as int, fov as int);
            if top <= i < top + height && 0 <= x && x / 5 < old(grid).width() {
                old(grid)@[i].update(x / 5, pal@[x % 5])
            } else {
                old(grid)@[i]
            }
        }),
{
    let width = grid.cols() as i64;
    let h = height as i64;
    assert(-128 * 1024 <= -pitch * h <= 128 * 1024) by (nonlinear_arith)
        requires
            -128 <= pitch <= 128,
            1 <= h <= 1024,
    ;
    let y_offset = -pitch * h / fov;
    let x_offset = width / 2 * 5 + 2;
    let ghost g0 = old(grid)@;
    let ghost w = old(grid).width() as int;
    let mut y: usize = 0;
    while y < height
        invariant
            grid.wf(),
            grid.width() == old(grid).width(),
            width == old(grid).width(),
            h == height,
            1 <= height <= MAX_DIM,
            top + height <= old(grid)@.len(),
            pal@.len() == VERTICAL_STEPS,
            -128 <= pitch <= 128,
            slope != 0,
            -SLOPE_LIMIT <= slope <= SLOPE_LIMIT,
            fov >= 1,
            grid@.len() == old(grid)@.len(),
            g0 == old(grid)@,
            w == old(grid).width(),
            y_offset == tdiv(-pitch * h, fov as int),
            -128 * 1024 <= y_offset <= 128 * 1024,
            x_offset == width / 2 * 5 + 2,
            y <= height,
            grid@ == Seq::new(g0.len(), |i: int| {
                let x = steep_x(i - top, pitch as int, height as int, w, slope as int, fov as int);
                if top <= i < top + y && 0 <= x && x / 5 < w {
                    g0[i].update(x / 5, pal@[x % 5])
                } else {
                    g0[i]
                }
            }),
        decreases height - y,
    {
        let d = y as i64 - h / 2 - y_offset;
        assert(-700_000_000 <= d * 5 * 1000 <= 700_000_000) by (nonlinear_arith)
            requires
                -140_000 <= d <= 140_000,
        ;
        let x = div_trunc(d * 5 * 1000, slope) + x_offset;
        assert(x == steep_x(y as int, pitch as int, height as int, w, slope as int, fov as int));
        if 0 <= x && x / 5 < width {
            grid.set(top + y, (x / 5) as usize, pal[(x % 5) as usize]);
        }
        y = y + 1;
        assert(grid@ =~= Seq::new(g0.len(), |i: int| {
            let x = steep_x(i - top, pitch as int, height as int, w, slope as int, fov as int);
            if top <= i < top + y && 0 <= x && x / 5 < w {
                g0[i].update(x / 5, pal@[x % 5])
            } else {
                g0[i]
            }
        }));
    }
}

} // verus!

verus! {

/// The codes of the glyphs from `LineTop` to `LineBottom`.
pub open spec fn horizontal_palette(t: SymbolTable) -> Seq<u8> {
    seq![
        t.code(Symbol::LineTop),
        t.code(Symbol::LineUpper1),
        t.code(Symbol::LineUpper2),
        t.code(Symbol::LineCenter),
        t.code(Symbol::LineLower1),
        t.code(Symbol::LineLower2),
        t.code(Symbol::LineBottom),
    ]
}

/// The codes of the glyphs from `LineLeft` to `LineRight`.
pub open spec fn vertical_palette(t: SymbolTable) -> Seq<u8> {
    seq![
        t.code(Symbol::LineLeft),
        t.code(Symbol::LineLeft1),
        t.code(Symbol::LineVerticalCenter),
        t.code(Symbol::LineRight1),
        t.code(Symbol::LineRight),
    ]
}

/// A point in columns and sub-rows.
pub type Point = (i64, i64);

impl Pitchladder {
    /// The points of the line from `start` to `end`, in walking order.
    #[verifier::rlimit(50)]
    pub fn draw_line(&self, start: Point, end: Point) -> (pts: Vec<Point>)
        requires
            -COORD_LIMIT <= start.0 <= COORD_LIMIT,
            -COORD_LIMIT <= start.1 <= COORD_LIMIT,
            -COORD_LIMIT <= end.0 <= COORD_LIMIT,
            -COORD_LIMIT <= end.1 <= COORD_LIMIT,
        ensures
            pts@.len() == line(start.0 as int, start.1 as int, end.0 as int, end.1 as int).len(),
            forall|i: int| 0 <= i < pts@.len() ==> (#[trigger] pts@[i]).0 == line(start.0 as int, start.1 as int, end.0 as int, end.1 as int)[i].0
                && pts@[i].1 == line(start.0 as int, start.1 as int, end.0 as int, end.1 as int)[i].1,
    {
        let (x0, y0) = start;
        let (x1, y1) = end;
        let dx: i64 = if x1 > x0 { x1 - x0 } else { x0 - x1 };
        let sx: i64 = if x0 < x1 { 1 } else { -1 };
        let dy: i64 = if y1 > y0 { y1 - y0 } else { y0 - y1 };
        let sy: i64 = if y0 < y1 { 1 } else { -1 };
        let ghost full = walk(dx as int, dy as int, 0, 0, (dx + dy) as nat);
        let ghost target = line(x0 as int, y0 as int, x1 as int, y1 as int);
        proof {
            lemma_walk(dx as int, dy as int, 0, 0, (dx + dy) as nat);
        }
        let mut err: i64 = dx - dy;
        let mut x = x0;
        let mut y = y0;
        let ghost mut a: int = 0;
        let ghost mut b: int = 0;
        let ghost mut fuel: nat = (dx + dy) as nat;
        let ghost mut done: int = 0;
        let mut pts: Vec<(i64, i64)> = Vec::new();
        loop
            invariant_except_break
                0 <= dx <= 2 * COORD_LIMIT,
                0 <= dy <= 2 * COORD_LIMIT,
                dx == abs(x1 - x0),
                dy == abs(y1 - y0),
                sx == sign(x0 as int, x1 as int),
                sy == sign(y0 as int, y1 as int),
                0 <= a <= dx,
                0 <= b <= dy,
                fuel >= (dx - a) + (dy - b),
                x == x0 + sx * a,
                y == y0 + sy * b,
                err == walk_err(dx as int, dy as int, a, b),
                full == walk(dx as int, dy as int, 0, 0, (dx + dy) as nat),
                target == full.map_values(|p: (int, int)| (x0 + sign(x0 as int, x1 as int) * p.0, y0 + sign(y0 as int, y1 as int) * p.1)),
                done == pts@.len(),
                done <= full.len(),
                full == full.subrange(0, done) + walk(dx as int, dy as int, a, b, fuel),
                forall|i: int| 0 <= i < done ==> (#[trigger] pts@[i]).0 == target[i].0 && pts@[i].1 == target[i].1,
            ensures
                pts@.len() == target.len(),
                forall|i: int| 0 <= i < pts@.len() ==> (#[trigger] pts@[i]).0 == target[i].0 && pts@[i].1 == target[i].1,
            decreases (dx - a) + (dy - b),
        {
            proof {
                lemma_walk(dx as int, dy as int, a, b, fuel);
                lemma_walk_at_end(x0 as int, y0 as int, x1 as int, y1 as int, a, b);
                lemma_walk_err_bound(dx as int, dy as int, a, b);
                assert(full.len() == done + walk(dx as int, dy as int, a, b, fuel).len());
                assert(full[done] == walk(dx as int, dy as int, a, b, fuel)[0]);
            }
            pts.push((x, y));
            proof {
                done = done + 1;
            }
            if x == x1 && y == y1 {
                proof {
                    assert(full.len() == done);
                    assert(target.len() == full.len());
                }
                break;
            }
            let err2 = err * 2;
            let ghost e2 = 2 * walk_err(dx as int, dy as int, a, b);
            let ghost na = if e2 >= -dy { a + 1 } else { a };
            let ghost nb = if e2 <= dx { b + 1 } else { b };
            proof {
                lemma_walk_unfold(dx as int, dy as int, a, b, fuel);
                assert(full.subrange(0, done) =~= full.subrange(0, done - 1).push((a, b)));
                assert(full == full.subrange(0, done) + walk(dx as int, dy as int, na, nb, (fuel - 1) as nat));
            }
            if err2 >= -dy {
                err = err - dy;
                x = x + sx;
            }
            if err2 <= dx {
                err = err + dx;
                y = y + sy;
            }
            proof {
                a = na;
                b = nb;
                fuel = (fuel - 1) as nat;
            }
        }
        pts
    }

    pub fn new(symbol_table: &SymbolTable, fov: u8, char_pixel_ratio: PixelRatio, aspect_ratio: AspectRatio) -> (r: Self)
        requires
            symbol_table.wf(),
        ensures
            r.horizental_symbols@ == horizontal_palette(*symbol_table),
            r.vertical_symbols@ == vertical_palette(*symbol_table),
            r.char_pixel_ratio == char_pixel_ratio,
            r.fov_height == fov_height(aspect_ratio, fov as nat),
    {
        let horizental_symbols = vec![
            symbol_table.get(Symbol::LineTop),
            symbol_table.get(Symbol::LineUpper1),
            symbol_table.get(Symbol::LineUpper2),
            symbol_table.get(Symbol::LineCenter),
            symbol_table.get(Symbol::LineLower1),
            symbol_table.get(Symbol::LineLower2),
            symbol_table.get(Symbol::LineBottom),
        ];
        let vertical_symbols = vec![
            symbol_table.get(Symbol::LineLeft),
            symbol_table.get(Symbol::LineLeft1),
            symbol_table.get(Symbol::LineVerticalCenter),
            symbol_table.get(Symbol::LineRight1),
            symbol_table.get(Symbol::LineRight),
        ];
        assert(horizental_symbols@ =~= horizontal_palette(*symbol_table));
        assert(vertical_symbols@ =~= vertical_palette(*symbol_table));
        let fov_height = aspect_ratio.diagonal_to_height(fov as usize) as i64;
        Pitchladder { horizental_symbols, vertical_symbols, char_pixel_ratio, fov_height }
    }

    pub fn align(&self) -> (a: Align)
        ensures
            a == Align::Center,
    {
        Align::Center
    }

    /// Draws the horizon into rows `[top, bottom)`. `slope` is the on-screen
    /// slope of the horizon in thousandths (rise over run, in cells, for the
    /// folded roll); it only matters when the roll is not vertical.
    pub fn draw(&self, telemetry: &Telemetry, slope: i64, grid: &mut Grid, top: usize, bottom: usize) -> (n: NumOfLine)
        requires
            old(grid).wf(),
            top < bottom <= old(grid)@.len(),
            self.horizental_symbols@.len() == HORIZONTAL_STEPS,
            self.vertical_symbols@.len() == VERTICAL_STEPS,
            1 <= self.fov_height <= 1_000_000,
        ensures
            n == 0,
            final(grid).wf(),
            final(grid).width() == old(grid).width(),
            final(grid)@.len() == old(grid)@.len(),
            final(grid)@ == ladder_drawn(
                old(grid)@,
                top as int,
                bottom - top,
                old(grid).width() as int,
                telemetry.attitude.roll as int,
                telemetry.attitude.pitch as int,
                slope as int,
                self.fov_height as int,
                self.horizental_symbols@,
                self.vertical_symbols@,
            ),
    {
        let height = bottom - top;
        let h = height as i64;
        let w = grid.cols() as i64;
        let roll = fold_roll(telemetry.attitude.roll);
        let pitch = telemetry.attitude.pitch as i64;
        let k = if slope < -SLOPE_LIMIT {
            -SLOPE_LIMIT
        } else if slope > SLOPE_LIMIT {
            SLOPE_LIMIT
        } else {
            slope
        };
        if -ROLL_MODE_LIMIT <= roll && roll <= ROLL_MODE_LIMIT {
            assert(-128 * 1024 * 7 <= -pitch * h * 7 <= 128 * 1024 * 7) by (nonlinear_arith)
                requires
                    -128 <= pitch <= 128,
                    1 <= h <= 1024,
            ;
            let y_offset = div_trunc(-pitch * h * 7, self.fov_height) + 3;
            let m = h * 7;
            assert(0 <= w / 2 * m <= 512 * 1024 * 7) by (nonlinear_arith)
                requires
                    1 <= w <= 1024,
                    0 <= m <= 1024 * 7,
            ;
            proof {
                assert(w / 2 * m <= w * m) by (nonlinear_arith)
                    requires
                        1 <= w,
                        0 <= m,
                ;
                vstd::arithmetic::div_mod::lemma_div_is_ordered((w / 2 * m) as int, (w * m) as int, w as int);
                vstd::arithmetic::div_mod::lemma_div_by_multiple(m as int, w as int);
                assert(w * m == m * w) by (nonlinear_arith);
            }
            assert(w / 2 * m == w / 2 * h * 7) by (nonlinear_arith)
                requires
                    m == h * 7,
            ;
            let span = w / 2 * m / w;
            assert(-1024 * 7 * SLOPE_LIMIT <= span * k <= 1024 * 7 * SLOPE_LIMIT) by (nonlinear_arith)
                requires
                    0 <= span <= 1024 * 7,
                    -SLOPE_LIMIT <= k <= SLOPE_LIMIT,
            ;
            let y_center = div_trunc(span * k, 1000);
            proof {
                assert(-1024 * 7 * SLOPE_LIMIT / 1000 <= tdiv((span * k) as int, 1000) <= 1024 * 7 * SLOPE_LIMIT / 1000);
            }
            let base = h / 2 * 7 + y_offset;
            let y0 = base - y_center;
            let y1 = base + y_center;
            assert(k == clamp(slope as int, -SLOPE_LIMIT, SLOPE_LIMIT as int));
            assert(y0 == horizon_ends(telemetry.attitude.pitch as int, h as int, w as int, k as int, self.fov_height as int).0);
            assert(y1 == horizon_ends(telemetry.attitude.pitch as int, h as int, w as int, k as int, self.fov_height as int).1);
            let pts = self.draw_line((0, y0), (w, y1));
            plot_line(grid, top, height, &pts, &self.horizental_symbols, Ghost(line(0, y0 as int, w as int, y1 as int)));
        } else if roll == 90 {
            plot_column(grid, top, height, (w / 2) as usize, self.vertical_symbols[2]);
            assert(grid@ =~= ladder_drawn(
                old(grid)@,
                top as int,
                bottom - top,
                old(grid).width() as int,
                telemetry.attitude.roll as int,
                telemetry.attitude.pitch as int,
                slope as int,
                self.fov_height as int,
                self.horizental_symbols@,
                self.vertical_symbols@,
            ));
        } else if k != 0 {
            plot_steep(grid, top, height, pitch, k, self.fov_height, &self.vertical_symbols);
            assert(grid@ =~= ladder_drawn(
                old(grid)@,
                top as int,
                bottom - top,
                old(grid).width() as int,
                telemetry.attitude.roll as int,
                telemetry.attitude.pitch as int,
                slope as int,
                self.fov_height as int,
                self.horizental_symbols@,
                self.vertical_symbols@,
            ));
        }
        0
    }
}

} // verus!
