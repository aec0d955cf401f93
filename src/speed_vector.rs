//! The velocity vector: where the aircraft is actually going.
use vstd::prelude::*;
use crate::drawable::Align;
use crate::grid::Grid;
use crate::projector::{next_counter, next_frame, plot_vector, vector_drawn};
use crate::symbol::{Symbol, SymbolIndex, SymbolTable};
use crate::telemetry::Telemetry;
use crate::{fov_height, fov_width, AspectRatio};

verus! {

pub struct SpeedVector {
    pub vector: SymbolIndex,
    pub fov_width: u8,
    pub fov_height: u8,
    /// Frames drawn so far, wrapping.
    pub counter: u8,
}

/// Frames on which the velocity vector wins a contended cell.
pub const SPEED_VECTOR_PARITY: u8 = 0;

impl SpeedVector {
    pub fn new(symbols: &SymbolTable, fov: u8, aspect_ratio: AspectRatio) -> (r: Self)
        requires
            symbols.wf(),
            fov_width(aspect_ratio, fov as nat) >= 1,
            fov_height(aspect_ratio, fov as nat) >= 1,
        ensures
            r.vector == symbols.code(Symbol::VeclocityVector),
            r.fov_width == fov_width(aspect_ratio, fov as nat),
            r.fov_height == fov_height(aspect_ratio, fov as nat),
            r.counter == 0,
    {
        let w = aspect_ratio.diagonal_to_width(fov as usize);
        let h = aspect_ratio.diagonal_to_height(fov as usize);
        assert(w <= fov as nat && h <= fov as nat);
        SpeedVector { vector: symbols.get(Symbol::VeclocityVector), fov_width: w as u8, fov_height: h as u8, counter: 0 }
    }

    pub fn align(&self) -> (a: Align)
        ensures
            a == Align::Center,
    {
        Align::Center
    }

    /// Plots the speed vector in rows `[top, bottom)`; uses no rows of its slot.
    pub fn draw(&mut self, telemetry: &Telemetry, grid: &mut Grid, top: usize, bottom: usize) -> (n: usize)
        requires
            old(grid).wf(),
            top < bottom <= old(grid)@.len(),
            old(self).fov_width >= 1,
            old(self).fov_height >= 1,
        ensures
            n == 0,
            final(grid).wf(),
            final(grid).width() == old(grid).width(),
            final(grid)@.len() == old(grid)@.len(),
            final(self).counter == next_frame(old(self).counter),
            final(self).vector == old(self).vector,
            final(self).fov_width == old(self).fov_width,
            final(self).fov_height == old(self).fov_height,
            final(grid)@ == vector_drawn(
                old(grid)@,
                top as int,
                bottom - top,
                old(grid).width() as int,
                telemetry.speed_vector,
                old(self).fov_width as int,
                old(self).fov_height as int,
                old(self).vector,
                old(self).counter,
                SPEED_VECTOR_PARITY,
            ),
    {
        plot_vector(
            grid,
            top,
            bottom,
            telemetry.speed_vector,
            self.fov_width,
            self.fov_height,
            self.vector,
            self.counter,
            SPEED_VECTOR_PARITY,
        );
        self.counter = next_counter(self.counter);
        0
    }
}

} // verus!
