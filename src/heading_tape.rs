//! The heading tape: a wrap-around ruler of decades and a pointer row.
use vstd::prelude::*;
use crate::arith::tdiv;
use crate::drawable::{Align, NumOfLine};
use crate::grid::{write_run, Grid};
use crate::projector::{next_counter, next_frame};
use crate::symbol::{Symbol, SymbolIndex, SymbolTable};
use crate::telemetry::Telemetry;
use crate::text::{digits, heapless_decimal, label_digit, lemma_label};

verus! {

/// Cells of the visible ruler, e.g. "350 . 000 . 010".
pub const HEADING_TAPE_WIDTH: usize = 15;

/// Largest offset, in cells, of a bearing from the centre of the tape.
pub const MAX_OFFSET: i64 = 7;

/// The pointer glyph at the centre of the tape.
pub const CENTER_POINTER: u8 = 94;

/// Degrees to cells: three cells for five degrees, rounded toward zero.
pub open spec fn degree_offset(degree: int) -> int {
    tdiv(degree * 3, 5)
}

/// Column of a bearing on the tape, counted from its left end and held to
/// its half width.
pub open spec fn theta_offset(theta: int) -> int {
    if theta >= 0 {
        MAX_OFFSET + if degree_offset(theta) < MAX_OFFSET { degree_offset(theta) } else { MAX_OFFSET as int }
    } else {
        MAX_OFFSET + if degree_offset(theta) > -MAX_OFFSET { degree_offset(theta) } else { -MAX_OFFSET }
    }
}

/// Bearing of `target` seen from `heading`, in (-180, 180].
pub open spec fn bearing(heading: int, target: int) -> int {
    if (target - heading) % 360 > 180 {
        (target - heading) % 360 - 360
    } else {
        (target - heading) % 360
    }
}

/// The decade at or below a heading.
pub open spec fn lower_decade(h: int) -> int {
    h - h % 10
}

/// Where, in the 19-cell working buffer, the lower decade's label starts.
pub open spec fn label_start(h: int) -> int {
    8 - (h % 10) * 3 / 5
}

/// Cell `i` of the 19-cell working buffer of the tape for heading `h`: up to
/// four labels six cells apart, separated by " . ", the lower decade placed
/// left of centre by the heading's share of the decade.
pub open spec fn tape_cell(h: int, i: int) -> u8 {
    let lower = lower_decade(h);
    let k = i - label_start(h);
    if 0 <= k < 3 {
        label_digit(lower, k)
    } else if 6 <= k < 9 {
        label_digit((lower + 10) % 360, k - 6)
    } else if -6 <= k < -3 && label_start(h) >= 6 {
        label_digit((lower + 350) % 360, k + 6)
    } else if 12 <= k < 15 && label_start(h) + 12 < 17 {
        label_digit((lower + 20) % 360, k - 12)
    } else if k == -2 || k == 4 || k == 10 {
        46
    } else {
        32
    }
}

/// The visible ruler for heading `h`.
pub open spec fn tape(h: int) -> Seq<u8> {
    Seq::new(HEADING_TAPE_WIDTH as nat, |j: int| tape_cell(h, j + 2))
}

/// `g` with the ruler for `h` centred on row `r`.
pub open spec fn tape_drawn(g: Seq<Seq<u8>>, r: int, h: int) -> Seq<Seq<u8>> {
    write_run(g, r, g[r].len() / 2 - (HEADING_TAPE_WIDTH / 2) as int, tape(h))
}

/// `g` with the pointer row drawn on row `r`: the centre pointer and the
/// steerpoint glyph, which take turns by frame when they share a cell.
pub open spec fn pointers_drawn(g: Seq<Seq<u8>>, r: int, theta: int, counter: u8, glyph: u8) -> Seq<Seq<u8>> {
    let center = (g[r].len() / 2) as int;
    let at = theta_offset(theta) + center - (HEADING_TAPE_WIDTH / 2) as int;
    let g1 = if counter % 2 == 0 || at != center {
        g.update(r, g[r].update(center, CENTER_POINTER))
    } else {
        g
    };
    if counter % 2 == 1 || at != center {
        g1.update(r, g1[r].update(at, glyph))
    } else {
        g1
    }
}

/// The tape on the first row of `[top, bottom)` and the pointers on the
/// next, or from the bottom up when the tape is aligned to the bottom.
pub open spec fn heading_tape_drawn(g: Seq<Seq<u8>>, top: int, bottom: int, tape: HeadingTape, t: Telemetry) -> Seq<Seq<u8>> {
    let bottom_up = tape.align == Align::Bottom;
    let tape_row = if bottom_up { bottom - 1 } else { top };
    let pointer_row = if bottom_up { bottom - 2 } else { top + 1 };
    pointers_drawn(
        tape_drawn(g, tape_row, t.heading as int),
        pointer_row,
        bearing(t.heading as int, t.steerpoint.heading as int),
        tape.counter,
        tape.steerpoint_indicator,
    )
}

pub fn degree_to_offset(degree: i16) -> (r: i64)
    ensures
        r == degree_offset(degree as int),
{
    degree as i64 * 3 / 5
}

pub fn theta_to_offset(theta: i16) -> (r: usize)
    ensures
        r == theta_offset(theta as int),
        r <= 2 * MAX_OFFSET,
{
    let d = degree_to_offset(theta);
    let offset = if theta >= 0 {
        if d < MAX_OFFSET { d } else { MAX_OFFSET }
    } else {
        if d > -MAX_OFFSET { d } else { -MAX_OFFSET }
    };
    (MAX_OFFSET + offset) as usize
}

/// Bearing of the steerpoint relative to the current heading.
pub fn relative_bearing(heading: u16, target: u16) -> (r: i16)
    ensures
        r == bearing(heading as int, target as int),
        -180 < r <= 180,
{
    let d = target as i32 - heading as i32;
    let mut m = d % 360;
    if m < 0 {
        m = m + 360;
    }
    assert(m == (target - heading) % 360);
    if m > 180 {
        (m - 360) as i16
    } else {
        m as i16
    }
}

/// Writes the zero-padded three-digit label of `heading` at `pos`.
fn draw_heading(buffer: &mut Vec<u8>, pos: usize, heading: u16)
    requires
        heading < 1000,
        pos + 3 <= old(buffer)@.len() <= 64,
    ensures
        final(buffer)@ == Seq::new(old(buffer)@.len(), |i: int|
            if pos <= i < pos + 3 { label_digit(heading as int, i - pos) } else { old(buffer)@[i] }),
{
    buffer.set(pos, 48);
    buffer.set(pos + 1, 48);
    buffer.set(pos + 2, 48);
    let text = heapless_decimal(heading as i32);
    proof {
        lemma_label(heading as nat);
    }
    let n = text.len();
    let mut k: usize = 0;
    while k < n
        invariant
            n == text@.len(),
            n == digits(heading as nat).len(),
            text@ == digits(heading as nat),
            n <= 3,
            k <= n,
            pos + 3 <= old(buffer)@.len() <= 64,
            buffer@.len() == old(buffer)@.len(),
            forall|i: int| 0 <= i < buffer@.len() && !(pos <= i < pos + 3) ==> buffer@[i] == old(buffer)@[i],
            forall|i: int| pos <= i < pos + 3 - n ==> buffer@[i] == 48u8,
            forall|i: int| pos + 3 - n <= i < pos + 3 - n + k ==> buffer@[i] == text@[i - (pos + 3 - n)],
            forall|i: int| pos + 3 - n + k <= i < pos + 3 ==> buffer@[i] == 48u8,
        decreases n - k,
    {
        buffer.set(pos + 3 - n + k, text[k]);
        k = k + 1;
    }
    assert(buffer@ =~= Seq::new(old(buffer)@.len(), |i: int|
        if pos <= i < pos + 3 { label_digit(heading as int, i - pos) } else { old(buffer)@[i] }));
}

/// Centres the ruler for `heading` on row `r`.
pub fn draw_tape(heading: u16, grid: &mut Grid, r: usize)
    requires
        old(grid).wf(),
        r < old(grid)@.len(),
        old(grid).width() >= HEADING_TAPE_WIDTH,
        heading < 360,
    ensures
        final(grid).wf(),
        final(grid).width() == old(grid).width(),
        final(grid)@.len() == old(grid)@.len(),
        final(grid)@ == tape_drawn(old(grid)@, r as int, heading as int),
{
    let mut buffer: Vec<u8> = Vec::new();
    let mut i: usize = 0;
    while i < HEADING_TAPE_WIDTH + 4
        invariant
            i <= HEADING_TAPE_WIDTH + 4,
            buffer@ == Seq::new(i as nat, |k: int| 32u8),
        decreases HEADING_TAPE_WIDTH + 4 - i,
    {
        buffer.push(32);
        i = i + 1;
        assert(buffer@ =~= Seq::new(i as nat, |k: int| 32u8));
    }
    let lower_heading = heading / 10 * 10;
    let upper_heading = lower_heading + 10;
    let delta = (heading - lower_heading) * 3 / 5;
    let lower_index = (8 - delta) as usize;
    assert(lower_index == label_start(heading as int));
    draw_heading(&mut buffer, lower_index, lower_heading);
    let upper_index = lower_index + 6;
    draw_heading(&mut buffer, upper_index, upper_heading % 360);
    if lower_index >= 6 {
        draw_heading(&mut buffer, lower_index - 6, (lower_heading + 350) % 360);
    }
    if upper_index + 6 < 2 + HEADING_TAPE_WIDTH {
        draw_heading(&mut buffer, upper_index + 6, (upper_heading + 10) % 360);
    }
    buffer.set(lower_index - 2, 46);
    buffer.set(lower_index + 4, 46);
    buffer.set(upper_index + 4, 46);
    assert(buffer@ =~= Seq::new(19, |i: int| tape_cell(heading as int, i)));
    let mut out: Vec<u8> = Vec::new();
    let mut j: usize = 0;
    while j < HEADING_TAPE_WIDTH
        invariant
            j <= HEADING_TAPE_WIDTH,
            buffer@ == Seq::new(19, |i: int| tape_cell(heading as int, i)),
            out@ == Seq::new(j as nat, |k: int| tape_cell(heading as int, k + 2)),
        decreases HEADING_TAPE_WIDTH - j,
    {
        out.push(buffer[j + 2]);
        j = j + 1;
        assert(out@ =~= Seq::new(j as nat, |k: int| tape_cell(heading as int, k + 2)));
    }
    assert(out@ =~= tape(heading as int));
    let index = grid.cols() / 2 - HEADING_TAPE_WIDTH / 2;
    grid.write(r, index, out.as_slice());
}

pub struct HeadingTape {
    /// Top or Bottom.
    pub align: Align,
    pub steerpoint_indicator: SymbolIndex,
    /// Frames drawn so far, wrapping.
    pub counter: u8,
}

} // verus!

verus! {

impl HeadingTape {
    pub fn new(symbols: &SymbolTable) -> (r: Self)
        requires
            symbols.wf(),
        ensures
            r.align == Align::Top,
            r.steerpoint_indicator == symbols.code(Symbol::BoxDrawningLightUp),
            r.counter == 0,
    {
        HeadingTape { align: Align::Top, steerpoint_indicator: symbols.get(Symbol::BoxDrawningLightUp), counter: 0 }
    }

    /// Draws the centre pointer and the steerpoint glyph for bearing `theta` on row `r`.
    pub fn draw_indicator(&self, theta: i16, grid: &mut Grid, r: usize)
        requires
            old(grid).wf(),
            r < old(grid)@.len(),
            old(grid).width() >= HEADING_TAPE_WIDTH,
        ensures
            final(grid).wf(),
            final(grid).width() == old(grid).width(),
            final(grid)@.len() == old(grid)@.len(),
            final(grid)@ == pointers_drawn(old(grid)@, r as int, theta as int, self.counter, self.steerpoint_indicator),
    {
        let center = grid.cols() / 2;
        let at = theta_to_offset(theta) + center - HEADING_TAPE_WIDTH / 2;
        if self.counter % 2 == 0 || at != center {
            grid.set(r, center, CENTER_POINTER);
        }
        if self.counter % 2 == 1 || at != center {
            grid.set(r, at, self.steerpoint_indicator);
        }
    }

    pub fn align(&self) -> (a: Align)
        ensures
            a == self.align,
    {
        self.align
    }

    /// The ruler on the first row of the slot and the pointers on the next;
    /// from the bottom up when aligned to the bottom. Uses two rows.
    pub fn draw(&mut self, telemetry: &Telemetry, grid: &mut Grid, top: usize, bottom: usize) -> (n: NumOfLine)
        requires
            old(grid).wf(),
            top + 2 <= bottom <= old(grid)@.len(),
            old(grid).width() >= HEADING_TAPE_WIDTH,
            telemetry.heading < 360,
        ensures
            n == 2,
            final(grid).wf(),
            final(grid).width() == old(grid).width(),
            final(grid)@.len() == old(grid)@.len(),
            final(self).counter == next_frame(old(self).counter),
            final(self).align == old(self).align,
            final(self).steerpoint_indicator == old(self).steerpoint_indicator,
            final(grid)@ == heading_tape_drawn(old(grid)@, top as int, bottom as int, *old(self), *telemetry),
    {
        let bottom_up = self.align == Align::Bottom;
        let tape_row = if bottom_up { bottom - 1 } else { top };
        let pointer_row = if bottom_up { bottom - 2 } else { top + 1 };
        draw_tape(telemetry.heading, grid, tape_row);
        let theta = relative_bearing(telemetry.heading, telemetry.steerpoint.heading);
        self.draw_indicator(theta, grid, pointer_row);
        self.counter = next_counter(self.counter);
        2
    }
}

} // verus!
