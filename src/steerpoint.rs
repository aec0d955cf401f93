//! Steerpoint readout: number and name, distance, and time to go, on the
//! last three rows of the slot.
use vstd::prelude::*;
use crate::drawable::{Align, NumOfLine};
use crate::grid::{write_run, Grid};
use crate::symbol::{number_with_dot, to_number_with_dot, Symbol, SymbolIndex, SymbolTable};
use crate::telemetry::{distance_suffix, time_to_go_spec, Telemetry};
use crate::text::{concat, decimal, heapless_decimal, lemma_decimal_len, pad_right, padded_right};

verus! {

/// Longest time to go, in seconds, that the clock shows; longer reads as this.
pub const MAX_CLOCK: u32 = 359_999;

/// Two ASCII digits of `n < 100`.
pub open spec fn two_digits(n: int) -> Seq<u8> {
    seq![(48 + n / 10) as u8, (48 + n % 10) as u8]
}

/// "hh:mm:ss" for `t` seconds, held at 99:59:59.
pub open spec fn clock_text(t: int) -> Seq<u8> {
    let c = if t > MAX_CLOCK { MAX_CLOCK as int } else { t };
    two_digits(c / 3600) + seq![58u8] + two_digits(c / 60 % 60) + seq![58u8] + two_digits(c % 60)
}

/// The distance text: tenths below ten units, whole units above.
pub open spec fn distance_text(rho: int, suffix: Seq<u8>) -> Seq<u8> {
    if rho < 100 {
        decimal(rho) + suffix
    } else {
        decimal(rho / 10) + suffix
    }
}

/// "number/name", the name padded to four cells.
pub open spec fn label_text(number: int, name: Seq<u8>) -> Seq<u8> {
    decimal(number) + seq![47u8] + pad_right(name, 4)
}

/// The three rows ending at row `last` of `g`, `width` cells wide.
pub open spec fn steerpoint_drawn(g: Seq<Seq<u8>>, last: int, width: int, t: Telemetry, zero: u8) -> Seq<Seq<u8>> {
    let rho = t.steerpoint.coordinate.rho as int;
    let clock = clock_text(time_to_go_spec(t.steerpoint.coordinate.rho, t.speed_vector.rho) as int);
    let g1 = write_run(g, last, width - 8, clock);
    let dist = distance_text(rho, distance_suffix(t.unit));
    let g2 = write_run(g1, last - 1, width - dist.len(), dist);
    let g3 = if rho < 100 {
        g2.update(last - 1, g2[last - 1].update(width - 4, number_with_dot(g2[last - 1][width - 4], zero)))
    } else {
        g2
    };
    let label = label_text(t.steerpoint.number as int, t.steerpoint.name@);
    write_run(g3, last - 2, width - label.len(), label)
}

fn push_two_digits(v: &mut Vec<u8>, n: u32)
    requires
        n < 100,
    ensures
        final(v)@ == old(v)@ + two_digits(n as int),
{
    v.push((48 + n / 10) as u8);
    v.push((48 + n % 10) as u8);
    assert(v@ =~= old(v)@ + two_digits(n as int));
}

pub fn clock(t: u32) -> (r: Vec<u8>)
    ensures
        r@ == clock_text(t as int),
        r@.len() == 8,
{
    let c = if t > MAX_CLOCK { MAX_CLOCK } else { t };
    let mut r: Vec<u8> = Vec::new();
    push_two_digits(&mut r, c / 3600);
    r.push(58);
    push_two_digits(&mut r, c / 60 % 60);
    r.push(58);
    push_two_digits(&mut r, c % 60);
    assert(r@ =~= clock_text(t as int));
    r
}

pub struct Steerpoint {
    pub zero_dot: SymbolIndex,
}

impl Steerpoint {
    pub fn new(symbols: &SymbolTable) -> (r: Self)
        requires
            symbols.wf(),
        ensures
            r.zero_dot == symbols.code(Symbol::ZeroWithTraillingDot),
    {
        Steerpoint { zero_dot: symbols.get(Symbol::ZeroWithTraillingDot) }
    }

    pub fn align(&self) -> (a: Align)
        ensures
            a == Align::BottomRight,
    {
        Align::BottomRight
    }

    /// Right-aligned on the slot's last three rows: the label, the distance
    /// with its dotted digit below ten units, and the clock. Uses three rows.
    pub fn draw(&self, telemetry: &Telemetry, grid: &mut Grid, top: usize, bottom: usize) -> (n: NumOfLine)
        requires
            old(grid).wf(),
            top + 3 <= bottom <= old(grid)@.len(),
            old(grid).width() >= 8,
            telemetry.steerpoint.name@.len() + 4 <= old(grid).width(),
            self.zero_dot <= 246,
        ensures
            n == 3,
            final(grid).wf(),
            final(grid).width() == old(grid).width(),
            final(grid)@.len() == old(grid)@.len(),
            final(grid)@ == steerpoint_drawn(old(grid)@, bottom - 1, old(grid).width() as int, *telemetry, self.zero_dot),
    {
        let w = grid.cols();
        let last = bottom - 1;
        let steerpoint = &telemetry.steerpoint;

        let time = clock(telemetry.time_to_go());
        grid.write(last, w - 8, time.as_slice());

        let rho = steerpoint.coordinate.rho;
        let shown = if rho < 100 { rho } else { rho / 10 };
        let digits = heapless_decimal(shown as i32);
        proof {
            lemma_decimal_len(shown as int);
        }
        let suffix = telemetry.unit.distance();
        let dist = concat(digits, &suffix);
        grid.write(last - 1, w - dist.len(), dist.as_slice());
        if rho < 100 {
            let b = grid.get(last - 1, w - 4);
            let d = to_number_with_dot(b, self.zero_dot);
            grid.set(last - 1, w - 4, d);
        }

        let number = heapless_decimal(steerpoint.number as i32);
        proof {
            lemma_decimal_len(steerpoint.number as int);
        }
        let slash: Vec<u8> = vec![47u8];
        assert(slash@ =~= seq![47u8]);
        let head = concat(number, &slash);
        let name = padded_right(steerpoint.name.clone(), 4);
        let label = concat(head, &name);
        grid.write(last - 2, w - label.len(), label.as_slice());
        3
    }
}

} // verus!
