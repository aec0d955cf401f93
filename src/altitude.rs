//! Altitude readout, right-aligned on its row.
use vstd::prelude::*;
use crate::drawable::{Align, NumOfLine};
use crate::grid::{write_run, Grid};
use crate::telemetry::Telemetry;
use crate::text::{decimal, lemma_decimal_len, numtoa_decimal};

verus! {

/// Drawn in the `Right` or `TopRight` slot.
pub struct Altitude(pub Align);

impl Default for Altitude {
    fn default() -> (r: Self)
        ensures
            r.0 == Align::Right,
    {
        Altitude(Align::Right)
    }
}

impl Altitude {
    pub fn align(&self) -> (a: Align)
        ensures
            a == self.0,
    {
        self.0
    }

    /// The altitude at the right end of the slot's first row.
    pub fn draw(&self, telemetry: &Telemetry, grid: &mut Grid, top: usize, bottom: usize) -> (n: NumOfLine)
        requires
            old(grid).wf(),
            top < bottom <= old(grid)@.len(),
            old(grid).width() >= 6,
        ensures
            n == 1,
            final(grid).wf(),
            final(grid).width() == old(grid).width(),
            final(grid)@.len() == old(grid)@.len(),
            final(grid)@ == write_run(
                old(grid)@,
                top as int,
                old(grid).width() - decimal(telemetry.altitude as int).len(),
                decimal(telemetry.altitude as int),
            ),
    {
        let text = numtoa_decimal(telemetry.altitude as i32);
        proof {
            lemma_decimal_len(telemetry.altitude as int);
        }
        let w = grid.cols();
        grid.write(top, w - text.len(), text.as_slice());
        1
    }
}

} // verus!
