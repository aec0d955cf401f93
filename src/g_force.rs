//! Load factor: "G" and the value with a dotted units digit.
use vstd::prelude::*;
use crate::aoa::{tenths_field, tenths_text};
use crate::drawable::{Align, NumOfLine};
use crate::grid::{write_run, Grid};
use crate::symbol::{Symbol, SymbolIndex, SymbolTable};
use crate::telemetry::Telemetry;
use crate::text::concat;

verus! {

pub struct GForce {
    pub zero_dot: SymbolIndex,
}

impl GForce {
    pub fn new(symbols: &SymbolTable) -> (r: Self)
        requires
            symbols.wf(),
        ensures
            r.zero_dot == symbols.code(Symbol::ZeroWithTraillingDot),
    {
        GForce { zero_dot: symbols.get(Symbol::ZeroWithTraillingDot) }
    }

    pub fn align(&self) -> (a: Align)
        ensures
            a == Align::Left,
    {
        Align::Left
    }

    /// "G" and the field at the start of the slot's first row.
    pub fn draw(&self, telemetry: &Telemetry, grid: &mut Grid, top: usize, bottom: usize) -> (n: NumOfLine)
        requires
            old(grid).wf(),
            top < bottom <= old(grid)@.len(),
            old(grid).width() >= 5,
            self.zero_dot <= 246,
        ensures
            n == 1,
            final(grid).wf(),
            final(grid).width() == old(grid).width(),
            final(grid)@.len() == old(grid)@.len(),
            final(grid)@ == write_run(
                old(grid)@,
                top as int,
                0,
                seq![71u8] + tenths_field(telemetry.g_force.0 as int, self.zero_dot, false),
            ),
    {
        let field = tenths_text(telemetry.g_force.0, self.zero_dot, false);
        let head: Vec<u8> = vec![71u8];
        assert(head@ =~= seq![71u8]);
        let bytes = concat(head, &field);
        grid.write(top, 0, bytes.as_slice());
        1
    }
}

} // verus!
