//! Angle of attack: an alpha glyph and the value with a dotted units digit.
use vstd::prelude::*;
use crate::drawable::{Align, NumOfLine};
use crate::grid::{write_run, Grid};
use crate::symbol::{number_with_dot, to_number_with_dot, Symbol, SymbolIndex, SymbolTable};
use crate::telemetry::Telemetry;
use crate::text::{concat, decimal, heapless_decimal, lemma_decimal_len, pad_left, padded_left};

verus! {

/// Four cells for a value in tenths: right-aligned, the units digit turned
/// into its dotted glyph; with `keep_sign`, a value in (-1, 0) keeps its '-'
/// before that digit.
pub open spec fn tenths_field(tenths: int, zero: u8, keep_sign: bool) -> Seq<u8> {
    let p = pad_left(decimal(tenths), 4);
    let q = if keep_sign && -10 < tenths < 0 { p.update(1, 45u8) } else { p };
    q.update(2, number_with_dot(q[2], zero))
}

/// The four-cell field of `tenths_field`.
pub fn tenths_text(tenths: i8, zero: u8, keep_sign: bool) -> (r: Vec<u8>)
    requires
        zero <= 246,
    ensures
        r@ == tenths_field(tenths as int, zero, keep_sign),
        r@.len() == 4,
{
    let text = heapless_decimal(tenths as i32);
    proof {
        lemma_decimal_len(tenths as int);
    }
    let mut p = padded_left(text, 4);
    if keep_sign && -10 < tenths && tenths < 0 {
        p.set(1, 45);
    }
    let d = to_number_with_dot(p[2], zero);
    p.set(2, d);
    p
}

pub struct AOA {
    pub alpha: SymbolIndex,
    pub zero_dot: SymbolIndex,
}

impl AOA {
    pub fn new(symbols: &SymbolTable) -> (r: Self)
        requires
            symbols.wf(),
        ensures
            r.alpha == symbols.code(Symbol::Alpha),
            r.zero_dot == symbols.code(Symbol::ZeroWithTraillingDot),
    {
        AOA { alpha: symbols.get(Symbol::Alpha), zero_dot: symbols.get(Symbol::ZeroWithTraillingDot) }
    }

    pub fn align(&self) -> (a: Align)
        ensures
            a == Align::Left,
    {
        Align::Left
    }

    /// The glyph and the field at the start of the slot's first row.
    pub fn draw(&self, telemetry: &Telemetry, grid: &mut Grid, top: usize, bottom: usize) -> (n: NumOfLine)
        requires
            old(grid).wf(),
            top < bottom <= old(grid)@.len(),
            old(grid).width() >= 5,
            self.zero_dot <= 246,
        ensures
            n == 1,
            final(grid).wf(),
            final(grid).width() == old(grid).width(),
            final(grid)@.len() == old(grid)@.len(),
            final(grid)@ == write_run(
                old(grid)@,
                top as int,
                0,
                seq![self.alpha] + tenths_field(telemetry.aoa.0 as int, self.zero_dot, true),
            ),
    {
        let field = tenths_text(telemetry.aoa.0, self.zero_dot, true);
        let head: Vec<u8> = vec![self.alpha];
        assert(head@ =~= seq![self.alpha]);
        let bytes = concat(head, &field);
        grid.write(top, 0, bytes.as_slice());
        1
    }
}

} // verus!
