//! Battery readout: a battery glyph and the charge, right-aligned.
use vstd::prelude::*;
use crate::drawable::{Align, NumOfLine};
use crate::grid::{write_run, Grid};
use crate::symbol::{Symbol, SymbolIndex, SymbolTable};
use crate::telemetry::Telemetry;
use crate::text::{concat, decimal, heapless_decimal, lemma_decimal_len};

verus! {

pub struct Battery {
    pub battery: SymbolIndex,
}

impl Battery {
    pub fn new(symbols: &SymbolTable) -> (r: Self)
        requires
            symbols.wf(),
        ensures
            r.battery == symbols.code(Symbol::Battery),
    {
        Battery { battery: symbols.get(Symbol::Battery) }
    }

    pub fn align(&self) -> (a: Align)
        ensures
            a == Align::TopRight,
    {
        Align::TopRight
    }

    /// The glyph and the percentage at the right end of the slot's first row.
    pub fn draw(&self, telemetry: &Telemetry, grid: &mut Grid, top: usize, bottom: usize) -> (n: NumOfLine)
        requires
            old(grid).wf(),
            top < bottom <= old(grid)@.len(),
            old(grid).width() >= 4,
        ensures
            n == 1,
            final(grid).wf(),
            final(grid).width() == old(grid).width(),
            final(grid)@.len() == old(grid)@.len(),
            final(grid)@ == write_run(
                old(grid)@,
                top as int,
                old(grid).width() - decimal(telemetry.battery as int).len() - 1,
                seq![self.battery] + decimal(telemetry.battery as int),
            ),
    {
        let text = heapless_decimal(telemetry.battery as i32);
        proof {
            lemma_decimal_len(telemetry.battery as int);
        }
        let head: Vec<u8> = vec![self.battery];
        assert(head@ =~= seq![self.battery]);
        let bytes = concat(head, &text);
        let w = grid.cols();
        grid.write(top, w - text.len() - 1, bytes.as_slice());
        1
    }
}

} // verus!
