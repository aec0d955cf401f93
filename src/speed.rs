//! Speed readout, right-aligned in the first five cells of its row.
use vstd::prelude::*;
use crate::drawable::{Align, NumOfLine};
use crate::grid::{write_run, Grid};
use crate::telemetry::Telemetry;
use crate::text::{decimal, heapless_decimal, lemma_decimal_len};

verus! {

/// Drawn in the `Left` or `TopLeft` slot.
pub struct Speed(pub Align);

impl Default for Speed {
    fn default() -> (r: Self)
        ensures
            r.0 == Align::Left,
    {
        Speed(Align::Left)
    }
}

impl Speed {
    pub fn align(&self) -> (a: Align)
        ensures
            a == self.0,
    {
        self.0
    }

    /// The speed, ending at the fifth cell of the slot's first row.
    pub fn draw(&self, telemetry: &Telemetry, grid: &mut Grid, top: usize, bottom: usize) -> (n: NumOfLine)
        requires
            old(grid).wf(),
            top < bottom <= old(grid)@.len(),
            old(grid).width() >= 5,
        ensures
            n == 1,
            final(grid).wf(),
            final(grid).width() == old(grid).width(),
            final(grid)@.len() == old(grid)@.len(),
            final(grid)@ == write_run(
                old(grid)@,
                top as int,
                5 - decimal(telemetry.speed_vector.rho as int).len(),
                decimal(telemetry.speed_vector.rho as int),
            ),
    {
        let text = heapless_decimal(telemetry.speed() as i32);
        proof {
            lemma_decimal_len(telemetry.speed_vector.rho as int);
        }
        grid.write(top, 5 - text.len(), text.as_slice());
        1
    }
}

} // verus!
