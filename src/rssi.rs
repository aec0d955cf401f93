//! Link quality readout: an antenna glyph and the percentage.
use vstd::prelude::*;
use crate::drawable::{Align, NumOfLine};
use crate::grid::{write_run, Grid};
use crate::symbol::{Symbol, SymbolIndex, SymbolTable};
use crate::telemetry::Telemetry;
use crate::text::{decimal, heapless_decimal, lemma_decimal_len};

verus! {

pub struct RSSI {
    pub antenna: SymbolIndex,
}

impl RSSI {
    pub fn new(symbols: &SymbolTable) -> (r: Self)
        requires
            symbols.wf(),
        ensures
            r.antenna == symbols.code(Symbol::Antenna),
    {
        RSSI { antenna: symbols.get(Symbol::Antenna) }
    }

    pub fn align(&self) -> (a: Align)
        ensures
            a == Align::TopLeft,
    {
        Align::TopLeft
    }

    /// The glyph in the first cell, then the percentage ending at the fourth.
    pub fn draw(&self, telemetry: &Telemetry, grid: &mut Grid, top: usize, bottom: usize) -> (n: NumOfLine)
        requires
            old(grid).wf(),
            top < bottom <= old(grid)@.len(),
            old(grid).width() >= 4,
        ensures
            n == 1,
            final(grid).wf(),
            final(grid).width() == old(grid).width(),
            final(grid)@.len() == old(grid)@.len(),
            final(grid)@ == write_run(
                write_run(old(grid)@, top as int, 0, seq![self.antenna, 32u8, 32u8]),
                top as int,
                4 - decimal(telemetry.rssi as int).len(),
                decimal(telemetry.rssi as int),
            ),
    {
        let head: Vec<u8> = vec![self.antenna, 32, 32];
        grid.write(top, 0, head.as_slice());
        let text = heapless_decimal(telemetry.rssi as i32);
        proof {
            lemma_decimal_len(telemetry.rssi as int);
        }
        grid.write(top, 4 - text.len(), text.as_slice());
        1
    }
}

} // verus!
