//! Height above ground, centred on its row; skipped when not available.
use vstd::prelude::*;
use crate::drawable::{Align, NumOfLine};
use crate::grid::{write_run, Grid};
use crate::telemetry::{Telemetry, HEIGHT_UNAVAILABLE};
use crate::text::{decimal, heapless_decimal, lemma_decimal_len};

verus! {

/// Drawn in the `Bottom` slot, or on a top-down slot's first row.
pub struct Height(pub Align);

impl Default for Height {
    fn default() -> (r: Self)
        ensures
            r.0 == Align::Bottom,
    {
        Height(Align::Bottom)
    }
}

/// The height centred on the last row of `[top, bottom)` when aligned to the
/// bottom, on the first row otherwise; nothing when it is unavailable.
pub open spec fn height_drawn(g: Seq<Seq<u8>>, top: int, bottom: int, width: int, align: Align, height: i16) -> Seq<Seq<u8>> {
    if height == HEIGHT_UNAVAILABLE {
        g
    } else {
        write_run(
            g,
            if align == Align::Bottom { bottom - 1 } else { top },
            width / 2 - decimal(height as int).len() / 2,
            decimal(height as int),
        )
    }
}

impl Height {
    pub fn align(&self) -> (a: Align)
        ensures
            a == self.0,
    {
        self.0
    }

    /// The height centred on the slot's last row (first row unless aligned
    /// to the bottom); nothing, and no row used, when it is unavailable.
    pub fn draw(&self, telemetry: &Telemetry, grid: &mut Grid, top: usize, bottom: usize) -> (n: NumOfLine)
        requires
            old(grid).wf(),
            top < bottom <= old(grid)@.len(),
            old(grid).width() >= 6,
        ensures
            final(grid).wf(),
            final(grid).width() == old(grid).width(),
            final(grid)@.len() == old(grid)@.len(),
            n == if telemetry.height == HEIGHT_UNAVAILABLE { 0usize } else { 1usize },
            final(grid)@ == height_drawn(old(grid)@, top as int, bottom as int, old(grid).width() as int, self.0, telemetry.height),
    {
        if telemetry.height == HEIGHT_UNAVAILABLE {
            return 0;
        }
        let row = if self.0 == Align::Bottom { bottom - 1 } else { top };
        let text = heapless_decimal(telemetry.height as i32);
        proof {
            lemma_decimal_len(telemetry.height as int);
        }
        let offset = grid.cols() / 2 - text.len() / 2;
        grid.write(row, offset, text.as_slice());
        1
    }
}

} // verus!
