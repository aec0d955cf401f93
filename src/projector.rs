//! The angular vector projector: one spherical telemetry vector becomes one
//! glyph in the centre region.
use vstd::prelude::*;
use crate::arith::{clamp, tdiv};
use crate::grid::{Grid, BLANK, TRANSPARENT};
use crate::telemetry::SphericalCoordinate;

verus! {

/// Below this magnitude the indicator is drawn closer to the centre.
pub const LOW_MAGNITUDE: i64 = 5;

/// Degrees scaled by `(rho / 5)^2` below the low magnitude, unchanged above.
pub open spec fn with_ratio_spec(rho: int, degree: int) -> int {
    if rho >= LOW_MAGNITUDE {
        degree
    } else {
        tdiv(tdiv(degree * rho * rho, 5), 5)
    }
}

/// An azimuth given in [0, 360) moved into (-180, 180].
pub open spec fn recenter(theta: int) -> int {
    if theta > 180 {
        theta - 360
    } else {
        theta
    }
}

/// The cell, among `span` cells, for an angle against a field of view of
/// `fov` degrees: the centre offset by the proportional share, clamped.
pub open spec fn project(degree: int, span: int, fov: int) -> int {
    clamp(tdiv(degree * span, fov) + span / 2, 0, span - 1)
}

/// Row, within a region of `height` rows, of a vector.
pub open spec fn vector_row(v: SphericalCoordinate, height: int, fov_height: int) -> int {
    project(-with_ratio_spec(v.rho as int, v.phi as int), height, fov_height)
}

/// Column, within a row of `width` cells, of a vector.
pub open spec fn vector_col(v: SphericalCoordinate, width: int, fov_width: int) -> int {
    project(with_ratio_spec(v.rho as int, recenter(v.theta as int)), width, fov_width)
}

/// `g` with `glyph` plotted for `v` in rows `[top, top + height)`, following
/// the flicker rule for a contended cell.
pub open spec fn vector_drawn(
    g: Seq<Seq<u8>>,
    top: int,
    height: int,
    width: int,
    v: SphericalCoordinate,
    fov_width: int,
    fov_height: int,
    glyph: u8,
    counter: u8,
    parity: u8,
) -> Seq<Seq<u8>> {
    let row = top + vector_row(v, height, fov_height);
    let col = vector_col(v, width, fov_width);
    if takes_cell(g[row][col], counter, parity) {
        g.update(row, g[row].update(col, glyph))
    } else {
        g
    }
}

/// Whether a widget writes over a cell holding `b` on frame `counter`: a
/// background cell always, a contended one only on frames of its parity.
pub open spec fn takes_cell(b: u8, counter: u8, parity: u8) -> bool {
    b == TRANSPARENT || b == BLANK || counter % 2 == parity
}

/// The frame counter after one draw.
pub open spec fn next_frame(counter: u8) -> u8 {
    if counter == 255 {
        0
    } else {
        (counter + 1) as u8
    }
}

pub fn next_counter(counter: u8) -> (r: u8)
    ensures
        r == next_frame(counter),
{
    counter.wrapping_add(1)
}

pub fn with_ratio(speed: i64, degree: i64) -> (r: i64)
    requires
        0 <= speed <= 65535,
        -65536 <= degree <= 65536,
    ensures
        r == with_ratio_spec(speed as int, degree as int),
        -65536 <= r <= 65536,
{
    if speed >= LOW_MAGNITUDE {
        return degree;
    }
    assert(-65536 * 5 <= degree * speed <= 65536 * 5) by (nonlinear_arith)
        requires
            0 <= speed < 5,
            -65536 <= degree <= 65536,
    ;
    assert(-65536 * 25 <= degree * speed * speed <= 65536 * 25) by (nonlinear_arith)
        requires
            0 <= speed < 5,
            -65536 <= degree <= 65536,
    ;
    degree * speed * speed / 5 / 5
}

pub fn project_axis(degree: i64, span: i64, fov: i64) -> (r: usize)
    requires
        -65536 <= degree <= 65536,
        1 <= span <= 1024,
        1 <= fov,
    ensures
        r == project(degree as int, span as int, fov as int),
        r < span,
{
    assert(-65536 * 1024 <= degree * span <= 65536 * 1024) by (nonlinear_arith)
        requires
            1 <= span <= 1024,
            -65536 <= degree <= 65536,
    ;
    let mut p = degree * span / fov + span / 2;
    if p < 0 {
        p = 0;
    } else if p >= span {
        p = span - 1;
    }
    p as usize
}

/// Draws `glyph` for `v` in rows `[top, bottom)` of `grid`, following the
/// flicker rule for a contended cell.
pub fn plot_vector(
    grid: &mut Grid,
    top: usize,
    bottom: usize,
    v: SphericalCoordinate,
    fov_width: u8,
    fov_height: u8,
    glyph: u8,
    counter: u8,
    parity: u8,
)
    requires
        old(grid).wf(),
        top < bottom <= old(grid)@.len(),
        fov_width >= 1,
        fov_height >= 1,
    ensures
        final(grid).wf(),
        final(grid).width() == old(grid).width(),
        final(grid)@.len() == old(grid)@.len(),
        final(grid)@ == vector_drawn(
            old(grid)@,
            top as int,
            bottom - top,
            old(grid).width() as int,
            v,
            fov_width as int,
            fov_height as int,
            glyph,
            counter,
            parity,
        ),
{
    let speed = v.rho as i64;
    let height = (bottom - top) as i64;
    let y_degree = -with_ratio(speed, v.phi as i64);
    let y = top + project_axis(y_degree, height, fov_height as i64);
    let width = grid.cols() as i64;
    let mut azimuth = v.theta as i64;
    if azimuth > 180 {
        azimuth = azimuth - 360;
    }
    let x_degree = with_ratio(speed, azimuth);
    let x = project_axis(x_degree, width, fov_width as i64);
    let byte = grid.get(y, x);
    if byte == TRANSPARENT || byte == BLANK || counter % 2 == parity {
        grid.set(y, x, glyph);
    }
}

} // verus!
