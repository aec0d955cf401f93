//! The compositor: owns every widget, hands each a region of the grid by
//! its layout slot, and draws one frame.
use vstd::prelude::*;
use crate::altitude::Altitude;
use crate::aoa::{tenths_field, AOA};
use crate::battery::Battery;
use crate::drawable::Align;
use crate::g_force::GForce;
use crate::grid::{faded, write_run, Grid};
use crate::heading_tape::{heading_tape_drawn, HeadingTape, HEADING_TAPE_WIDTH};
use crate::height::{height_drawn, Height};
use crate::note::{note, notes_drawn, split_lines, MAX_NOTE};
use crate::pitch_ladder::{horizontal_palette, ladder_drawn, vertical_palette, Pitchladder};
use crate::projector::{next_frame, vector_drawn};
use crate::rssi::RSSI;
use crate::speed::Speed;
use crate::speed_vector::{SpeedVector, SPEED_VECTOR_PARITY};
use crate::steerpoint::{steerpoint_drawn, Steerpoint};
use crate::steerpoint_vector::{SteerpointVector, STEERPOINT_VECTOR_PARITY};
use crate::symbol::{Symbol, SymbolTable};
use crate::telemetry::Telemetry;
use crate::text::decimal;
use crate::{fov_height, fov_width, AspectRatio, PixelRatio};

verus! {

/// Every widget of the display, in drawing order.
#[derive(Copy, Clone, PartialEq, Eq, Structural, Debug)]
pub enum Displayable {
    Pitchladder,
    SpeedVector,
    SteerpointVector,
    RSSI,
    HeadingTape,
    Battery,
    Speed,
    AOA,
    GForce,
    Altitude,
    Vario,
    Steerpoint,
    Height,
}

/// The layout slot each widget is bound to.
pub open spec fn slot_of(d: Displayable) -> Align {
    match d {
        Displayable::Pitchladder => Align::Center,
        Displayable::SpeedVector => Align::Center,
        Displayable::SteerpointVector => Align::Center,
        Displayable::RSSI => Align::TopLeft,
        Displayable::HeadingTape => Align::Top,
        Displayable::Battery => Align::TopRight,
        Displayable::Speed => Align::Left,
        Displayable::AOA => Align::Left,
        Displayable::GForce => Align::Left,
        Displayable::Altitude => Align::Right,
        Displayable::Vario => Align::Right,
        Displayable::Steerpoint => Align::BottomRight,
        Displayable::Height => Align::Bottom,
    }
}

pub fn slot(d: Displayable) -> (a: Align)
    ensures
        a == slot_of(d),
{
    match d {
        Displayable::Pitchladder => Align::Center,
        Displayable::SpeedVector => Align::Center,
        Displayable::SteerpointVector => Align::Center,
        Displayable::RSSI => Align::TopLeft,
        Displayable::HeadingTape => Align::Top,
        Displayable::Battery => Align::TopRight,
        Displayable::Speed => Align::Left,
        Displayable::AOA => Align::Left,
        Displayable::GForce => Align::Left,
        Displayable::Altitude => Align::Right,
        Displayable::Vario => Align::Right,
        Displayable::Steerpoint => Align::BottomRight,
        Displayable::Height => Align::Bottom,
    }
}

pub open spec fn align_index(a: Align) -> nat {
    match a {
        Align::Top => 0,
        Align::TopLeft => 1,
        Align::TopRight => 2,
        Align::Left => 3,
        Align::Center => 4,
        Align::Right => 5,
        Align::BottomLeft => 6,
        Align::Bottom => 7,
        Align::BottomRight => 8,
    }
}

fn slot_index(a: Align) -> (i: usize)
    ensures
        i == align_index(a),
        i < 9,
{
    match a {
        Align::Top => 0,
        Align::TopLeft => 1,
        Align::TopRight => 2,
        Align::Left => 3,
        Align::Center => 4,
        Align::Right => 5,
        Align::BottomLeft => 6,
        Align::Bottom => 7,
        Align::BottomRight => 8,
    }
}

/// Rows `[start, end)` that a slot hands out when `cursor` rows of it are
/// used: top slots from the top down, bottom slots from the bottom up, left
/// and right from the middle down, the centre all of it.
pub open spec fn region(a: Align, cursor: int, rows: int) -> (int, int) {
    match a {
        Align::Top | Align::TopLeft | Align::TopRight => (cursor, rows),
        Align::Bottom | Align::BottomLeft | Align::BottomRight => (0, rows - cursor),
        Align::Left | Align::Right => (rows / 2 + cursor, rows),
        Align::Center => (0, rows),
    }
}

pub fn slot_region(a: Align, cursor: usize, rows: usize) -> (r: (usize, usize))
    requires
        cursor <= rows / 2,
    ensures
        r.0 == region(a, cursor as int, rows as int).0,
        r.1 == region(a, cursor as int, rows as int).1,
{
    match a {
        Align::Top | Align::TopLeft | Align::TopRight => (cursor, rows),
        Align::Bottom | Align::BottomLeft | Align::BottomRight => (0, rows - cursor),
        Align::Left | Align::Right => (rows / 2 + cursor, rows),
        Align::Center => (0, rows),
    }
}

/// Smallest grid the display is laid out on.
pub const MIN_ROWS: usize = 6;
pub const MIN_COLS: usize = HEADING_TAPE_WIDTH;

/// Smallest diagonal field of view that the display uses.
pub const MIN_FOV: u8 = 10;

/// The start of a frame: every cell faded.
pub open spec fn faded_grid(g: Seq<Seq<u8>>) -> Seq<Seq<u8>> {
    Seq::new(g.len(), |r: int| Seq::new(g[r].len(), |c: int| faded(g[r][c])))
}

pub struct HUD {
    pub altitude: Altitude,
    pub aoa: AOA,
    pub battery: Battery,
    pub g_force: GForce,
    pub heading_tape: HeadingTape,
    pub height: Height,
    pub pitch_ladder: Pitchladder,
    pub rssi: RSSI,
    pub speed: Speed,
    pub vario: crate::vario::Vario,
    pub speed_vector: SpeedVector,
    pub steerpoint: Steerpoint,
    pub steerpoint_vector: SteerpointVector,
}

/// One frame over grid `g0` of `w` columns, with the widgets in the order of
/// `Displayable`, each in the region its slot hands out at that point.
pub open spec fn hud_frame(g0: Seq<Seq<u8>>, w: int, hud: HUD, t: Telemetry, slope: int) -> Seq<Seq<u8>> {
    let rows = g0.len() as int;
    let center = region(Align::Center, 0, rows);
    let g1 = faded_grid(g0);
    let g2 = ladder_drawn(
        g1,
        center.0,
        center.1 - center.0,
        w,
        t.attitude.roll as int,
        t.attitude.pitch as int,
        slope,
        hud.pitch_ladder.fov_height as int,
        hud.pitch_ladder.horizental_symbols@,
        hud.pitch_ladder.vertical_symbols@,
    );
    let sv = hud.speed_vector;
    let g3 = vector_drawn(g2, center.0, center.1 - center.0, w, t.speed_vector, sv.fov_width as int, sv.fov_height as int, sv.vector, sv.counter, SPEED_VECTOR_PARITY);
    let pv = hud.steerpoint_vector;
    let g4 = vector_drawn(g3, center.0, center.1 - center.0, w, t.steerpoint.coordinate, pv.fov_width as int, pv.fov_height as int, pv.vector, pv.counter, STEERPOINT_VECTOR_PARITY);
    let top_left = region(Align::TopLeft, 0, rows).0;
    let rssi = decimal(t.rssi as int);
    let g5 = write_run(write_run(g4, top_left, 0, seq![hud.rssi.antenna, 32u8, 32u8]), top_left, 4 - rssi.len(), rssi);
    let top = region(Align::Top, 0, rows);
    let g6 = heading_tape_drawn(g5, top.0, top.1, hud.heading_tape, t);
    let top_right = region(Align::TopRight, 0, rows).0;
    let battery = decimal(t.battery as int);
    let g7 = write_run(g6, top_right, w - battery.len() - 1, seq![hud.battery.battery] + battery);
    let speed = decimal(t.speed_vector.rho as int);
    let g8 = write_run(g7, region(Align::Left, 0, rows).0, 5 - speed.len(), speed);
    let g9 = write_run(g8, region(Align::Left, 1, rows).0, 0, seq![hud.aoa.alpha] + tenths_field(t.aoa.0 as int, hud.aoa.zero_dot, true));
    let g10 = write_run(g9, region(Align::Left, 2, rows).0, 0, seq![71u8] + tenths_field(t.g_force.0 as int, hud.g_force.zero_dot, false));
    let altitude = decimal(t.altitude as int);
    let g11 = write_run(g10, region(Align::Right, 0, rows).0, w - altitude.len(), altitude);
    let vario = decimal(t.vario as int);
    let g12 = write_run(g11, region(Align::Right, 1, rows).0, w - vario.len(), vario);
    let g13 = steerpoint_drawn(g12, region(Align::BottomRight, 0, rows).1 - 1, w, t, hud.steerpoint.zero_dot);
    let bottom = region(Align::Bottom, 0, rows);
    let g14 = height_drawn(g13, bottom.0, bottom.1, w, hud.height.0, t.height);
    let g15 = notes_drawn(g14, rows / 2 + 3, rows - (rows / 2 + 3), w, split_lines(t.notes.left@), Align::Left);
    let g16 = notes_drawn(g15, rows / 2 + 2, rows - (rows / 2 + 2), w, split_lines(t.notes.center@), Align::Center);
    notes_drawn(g16, rows / 2 + 2, rows - (rows / 2 + 2), w, split_lines(t.notes.right@), Align::Right)
}

/// The compositor after a frame: every flicker counter moved on by one.
pub open spec fn advanced(h: HUD) -> HUD {
    HUD {
        heading_tape: HeadingTape { counter: next_frame(h.heading_tape.counter), ..h.heading_tape },
        speed_vector: SpeedVector { counter: next_frame(h.speed_vector.counter), ..h.speed_vector },
        steerpoint_vector: SteerpointVector { counter: next_frame(h.steerpoint_vector.counter), ..h.steerpoint_vector },
        ..h
    }
}

/// The region that widget `d` gets with `cursors` rows used per slot.
fn take(cursors: &Vec<usize>, d: Displayable, rows: usize) -> (r: (usize, usize, usize))
    requires
        cursors@.len() == 9,
        cursors@[align_index(slot_of(d)) as int] <= rows / 2,
    ensures
        r.0 == region(slot_of(d), cursors@[align_index(slot_of(d)) as int] as int, rows as int).0,
        r.1 == region(slot_of(d), cursors@[align_index(slot_of(d)) as int] as int, rows as int).1,
        r.2 == align_index(slot_of(d)),
{
    let a = slot(d);
    let i = slot_index(a);
    let (top, bottom) = slot_region(a, cursors[i], rows);
    (top, bottom, i)
}

impl HUD {
    /// The widgets' settings that drawing relies on.
    pub open spec fn wf(&self) -> bool {
        &&& self.speed_vector.fov_width >= 1
        &&& self.speed_vector.fov_height >= 1
        &&& self.steerpoint_vector.fov_width >= 1
        &&& self.steerpoint_vector.fov_height >= 1
        &&& self.pitch_ladder.horizental_symbols@.len() == 7
        &&& self.pitch_ladder.vertical_symbols@.len() == 5
        &&& 1 <= self.pitch_ladder.fov_height <= 1_000_000
        &&& self.aoa.zero_dot <= 246
        &&& self.g_force.zero_dot <= 246
        &&& self.steerpoint.zero_dot <= 246
    }

    /// What a frame needs of the grid and the telemetry.
    pub open spec fn fits(grid: Grid, t: Telemetry) -> bool {
        &&& grid.wf()
        &&& grid@.len() >= MIN_ROWS
        &&& grid.width() >= MIN_COLS
        &&& t.heading < 360
        &&& t.steerpoint.name@.len() + 4 <= grid.width()
        &&& t.notes.left@.len() < MAX_NOTE
        &&& t.notes.center@.len() < MAX_NOTE
        &&& t.notes.right@.len() < MAX_NOTE
    }

    /// Tells whether `draw` can take this grid and telemetry.
    pub fn frame_fits(grid: &Grid, telemetry: &Telemetry) -> (b: bool)
        requires
            grid.wf(),
        ensures
            b == Self::fits(*grid, *telemetry),
    {
        grid.rows() >= MIN_ROWS && grid.cols() >= MIN_COLS && telemetry.heading < 360
            && telemetry.steerpoint.name.len() <= grid.cols() - 4 && telemetry.notes.left.len() < MAX_NOTE
            && telemetry.notes.center.len() < MAX_NOTE && telemetry.notes.right.len() < MAX_NOTE
    }

    /// Draws one frame: fades the grid, then draws each widget in the order
    /// of `Displayable` into the region of its slot, then the notes.
    /// `slope` is the horizon's on-screen slope in thousandths for the folded
    /// roll, as `Pitchladder::draw` takes it.
    #[verifier::rlimit(60)]
    pub fn draw(&mut self, telemetry: &Telemetry, slope: i64, grid: &mut Grid)
        requires
            old(self).wf(),
            Self::fits(*old(grid), *telemetry),
        ensures
            final(grid).wf(),
            final(grid).width() == old(grid).width(),
            final(grid)@.len() == old(grid)@.len(),
            final(grid)@ == hud_frame(old(grid)@, old(grid).width() as int, *old(self), *telemetry, slope as int),
            *final(self) == advanced(*old(self)),
            final(self).wf(),
    {
        grid.fade();
        proof {
            assert(grid@ =~~= faded_grid(old(grid)@));
        }
        let rows = grid.rows();
        let mut cursors: Vec<usize> = vec![0, 0, 0, 0, 0, 0, 0, 0, 0];
        assert(cursors@ =~= seq![0usize, 0, 0, 0, 0, 0, 0, 0, 0]);

        let (top, bottom, i) = take(&cursors, Displayable::Pitchladder, rows);
        let n = self.pitch_ladder.draw(telemetry, slope, grid, top, bottom);
        cursors.set(i, cursors[i] + n);
        let (top, bottom, i) = take(&cursors, Displayable::SpeedVector, rows);
        let n = self.speed_vector.draw(telemetry, grid, top, bottom);
        cursors.set(i, cursors[i] + n);
        let (top, bottom, i) = take(&cursors, Displayable::SteerpointVector, rows);
        let n = self.steerpoint_vector.draw(telemetry, grid, top, bottom);
        cursors.set(i, cursors[i] + n);
        let (top, bottom, i) = take(&cursors, Displayable::RSSI, rows);
        let n = self.rssi.draw(telemetry, grid, top, bottom);
        cursors.set(i, cursors[i] + n);
        let (top, bottom, i) = take(&cursors, Displayable::HeadingTape, rows);
        let n = self.heading_tape.draw(telemetry, grid, top, bottom);
        cursors.set(i, cursors[i] + n);
        let (top, bottom, i) = take(&cursors, Displayable::Battery, rows);
        let n = self.battery.draw(telemetry, grid, top, bottom);
        cursors.set(i, cursors[i] + n);
        let (top, bottom, i) = take(&cursors, Displayable::Speed, rows);
        let n = self.speed.draw(telemetry, grid, top, bottom);
        cursors.set(i, cursors[i] + n);
        let (top, bottom, i) = take(&cursors, Displayable::AOA, rows);
        let n = self.aoa.draw(telemetry, grid, top, bottom);
        cursors.set(i, cursors[i] + n);
        let (top, bottom, i) = take(&cursors, Displayable::GForce, rows);
        let n = self.g_force.draw(telemetry, grid, top, bottom);
        cursors.set(i, cursors[i] + n);
        let (top, bottom, i) = take(&cursors, Displayable::Altitude, rows);
        let n = self.altitude.draw(telemetry, grid, top, bottom);
        cursors.set(i, cursors[i] + n);
        let (top, bottom, i) = take(&cursors, Displayable::Vario, rows);
        let n = self.vario.draw(telemetry, grid, top, bottom);
        cursors.set(i, cursors[i] + n);
        let (top, bottom, i) = take(&cursors, Displayable::Steerpoint, rows);
        let n = self.steerpoint.draw(telemetry, grid, top, bottom);
        cursors.set(i, cursors[i] + n);
        let (top, bottom, i) = take(&cursors, Displayable::Height, rows);
        let n = self.height.draw(telemetry, grid, top, bottom);
        cursors.set(i, cursors[i] + n);

        // Notes follow the left and right readouts; the centre one keeps two
        // rows clear below the middle.
        let center: usize = 2;
        let left = cursors[slot_index(Align::Left)];
        let right = cursors[slot_index(Align::Right)];
        note(&telemetry.notes.left, Align::Left, grid, rows / 2 + left, rows);
        note(&telemetry.notes.center, Align::Center, grid, rows / 2 + center, rows);
        note(&telemetry.notes.right, Align::Right, grid, rows / 2 + right, rows);
    }

    /// Builds every widget; a field of view below `MIN_FOV` is raised to it.
    pub fn new(symbols: &SymbolTable, fov: u8, pixel: PixelRatio, aspect: AspectRatio) -> (hud: Self)
        requires
            symbols.wf(),
            symbols.code(Symbol::ZeroWithTraillingDot) <= 246,
        ensures
            hud.wf(),
            ({
                let f = (if fov < MIN_FOV { MIN_FOV } else { fov }) as nat;
                &&& hud.altitude.0 == Align::Right
                &&& hud.aoa.alpha == symbols.code(Symbol::Alpha)
                &&& hud.aoa.zero_dot == symbols.code(Symbol::ZeroWithTraillingDot)
                &&& hud.battery.battery == symbols.code(Symbol::Battery)
                &&& hud.g_force.zero_dot == symbols.code(Symbol::ZeroWithTraillingDot)
                &&& hud.heading_tape.align == Align::Top
                &&& hud.heading_tape.steerpoint_indicator == symbols.code(Symbol::BoxDrawningLightUp)
                &&& hud.heading_tape.counter == 0
                &&& hud.height.0 == Align::Bottom
                &&& hud.pitch_ladder.horizental_symbols@ == horizontal_palette(*symbols)
                &&& hud.pitch_ladder.vertical_symbols@ == vertical_palette(*symbols)
                &&& hud.pitch_ladder.char_pixel_ratio == pixel
                &&& hud.pitch_ladder.fov_height == fov_height(aspect, f)
                &&& hud.rssi.antenna == symbols.code(Symbol::Antenna)
                &&& hud.speed.0 == Align::Left
                &&& hud.vario.0 == Align::Right
                &&& hud.speed_vector.vector == symbols.code(Symbol::VeclocityVector)
                &&& hud.speed_vector.fov_width == fov_width(aspect, f)
                &&& hud.speed_vector.fov_height == fov_height(aspect, f)
                &&& hud.speed_vector.counter == 0
                &&& hud.steerpoint_vector.vector == symbols.code(Symbol::Square)
                &&& hud.steerpoint_vector.fov_width == fov_width(aspect, f)
                &&& hud.steerpoint_vector.fov_height == fov_height(aspect, f)
                &&& hud.steerpoint_vector.counter == 0
                &&& hud.steerpoint.zero_dot == symbols.code(Symbol::ZeroWithTraillingDot)
            }),
    {
        let fov = if fov < MIN_FOV { MIN_FOV } else { fov };
        HUD {
            altitude: Altitude::default(),
            aoa: AOA::new(symbols),
            battery: Battery::new(symbols),
            g_force: GForce::new(symbols),
            heading_tape: HeadingTape::new(symbols),
            height: Height::default(),
            pitch_ladder: Pitchladder::new(symbols, fov, pixel, aspect),
            rssi: RSSI::new(symbols),
            speed: Speed::default(),
            vario: crate::vario::Vario::default(),
            speed_vector: SpeedVector::new(symbols, fov, aspect),
            steerpoint_vector: SteerpointVector::new(symbols, fov, aspect),
            steerpoint: Steerpoint::new(symbols),
        }
    }
}

} // verus!
