use micromath::F32Ext;

use hud::drawable::Align;
use hud::grid::Grid;
use hud::heading_tape::{degree_to_offset, draw_tape, relative_bearing, theta_to_offset, HeadingTape};
use hud::hud::HUD;
use hud::note::note;
use hud::pitch_ladder::{fold_roll, Pitchladder};
use hud::projector::with_ratio;
use hud::speed_vector::SpeedVector;
use hud::steerpoint::clock;
use hud::steerpoint_vector::SteerpointVector;
use hud::symbol::{default_symbol_table, to_number_with_dot, Symbol};
use hud::telemetry::{Attitude, SphericalCoordinate, Telemetry, Unit};
use hud::{AspectRatio, PixelRatio};

const DEGREE_PER_RAD: f32 = 180.0 / core::f32::consts::PI;

fn slope(roll: i16, pixel: PixelRatio, width: usize, height: usize) -> i64 {
    let roll = fold_roll(roll);
    let ratio = (pixel.0 as isize * width as isize) as f32 / (pixel.1 as isize * height as isize) as f32;
    (F32Ext::tan(roll as f32 / DEGREE_PER_RAD) * ratio * 1000.0) as i64
}

fn find(grid: &Grid, glyph: u8) -> Vec<(usize, usize)> {
    let mut found = Vec::new();
    for r in 0..grid.rows() {
        for c in 0..grid.cols() {
            if grid.get(r, c) == glyph {
                found.push((r, c));
            }
        }
    }
    found
}

#[test]
fn line_is_gap_free_and_monotonic() {
    let ladder = Pitchladder::new(&default_symbol_table(), 18, PixelRatio(10, 22), AspectRatio(16, 10));
    for (y0, y1) in [(10, 13), (40, -25), (0, 0), (5, 200)] {
        let pts = ladder.draw_line((0, y0), (30, y1));
        assert_eq!(pts[0], (0, y0));
        assert_eq!(*pts.last().unwrap(), (30, y1));
        let sy = if y0 < y1 { 1 } else { -1 };
        for w in pts.windows(2) {
            let (dx, dy) = (w[1].0 - w[0].0, w[1].1 - w[0].1);
            assert!(dx == 0 || dx == 1);
            assert!(dy == 0 || dy == sy);
            assert!(dx != 0 || dy != 0);
        }
    }
}

#[test]
fn line_exact_points() {
    let ladder = Pitchladder::new(&default_symbol_table(), 18, PixelRatio(10, 22), AspectRatio(16, 10));
    let pts = ladder.draw_line((0, 0), (4, 2));
    assert_eq!(pts, vec![(0, 0), (1, 1), (2, 1), (3, 2), (4, 2)]);
}

#[test]
fn horizon_rows_step_by_at_most_one() {
    let symbols = default_symbol_table();
    let px = PixelRatio(10, 22);
    let ladder = Pitchladder::new(&symbols, 18, px, AspectRatio(16, 10));
    for roll in -70..=70i16 {
        let mut grid = Grid::new(9, 32);
        let mut telemetry = Telemetry::default();
        telemetry.attitude.roll = roll;
        let k = slope(roll, px, 32, 9);
        ladder.draw(&telemetry, k, &mut grid, 0, 9);
        let mut rows_of_col: Vec<Vec<usize>> = vec![Vec::new(); 32];
        for r in 0..9 {
            for c in 0..32 {
                if grid.get(r, c) != 0 {
                    rows_of_col[c].push(r);
                }
            }
        }
        for c in 1..32 {
            if let (Some(prev_first), Some(first)) = (rows_of_col[c - 1].first(), rows_of_col[c].first()) {
                let prev_last = *rows_of_col[c - 1].last().unwrap() as i64;
                let last = *rows_of_col[c].last().unwrap() as i64;
                let (prev_first, first) = (*prev_first as i64, *first as i64);
                assert!((first - prev_last).abs() <= 1 || (last - prev_first).abs() <= 1, "roll {}", roll);
            }
        }
    }
}

#[test]
fn vertical_roll_draws_full_centre_column() {
    let symbols = default_symbol_table();
    let ladder = Pitchladder::new(&symbols, 18, PixelRatio(10, 22), AspectRatio(16, 10));
    for roll in [90i16, -90] {
        let mut grid = Grid::new(9, 32);
        let mut telemetry = Telemetry::default();
        telemetry.attitude = Attitude { roll, pitch: 20 };
        ladder.draw(&telemetry, 0, &mut grid, 0, 9);
        let column = find(&grid, symbols.get(Symbol::LineVerticalCenter));
        assert_eq!(column, (0..9).map(|r| (r, 16)).collect::<Vec<_>>());
    }
}

#[test]
fn fold_roll_values() {
    assert_eq!(fold_roll(-180), 0);
    assert_eq!(fold_roll(-90), 90);
    assert_eq!(fold_roll(-91), 89);
    assert_eq!(fold_roll(90), 90);
    assert_eq!(fold_roll(91), -89);
    assert_eq!(fold_roll(180), 0);
    assert_eq!(fold_roll(300), 0);
}

fn decode(bytes: &[u8]) -> u32 {
    bytes.iter().fold(0, |acc, b| acc * 10 + (*b - b'0') as u32)
}

#[test]
fn tape_labels_consistent_mod_360() {
    for h in 0..360u16 {
        let mut grid = Grid::new(1, 15);
        draw_tape(h, &mut grid, 0);
        let row = grid.row(0);
        let start = (8 - (h % 10) * 3 / 5 - 2) as usize;
        let lower = h - h % 10;
        assert_eq!(decode(&row[start..start + 3]), lower as u32, "heading {}", h);
        assert_eq!(decode(&row[start + 6..start + 9]), ((lower + 10) % 360) as u32, "heading {}", h);
        if start == 6 {
            assert_eq!(decode(&row[0..3]), ((lower + 350) % 360) as u32, "heading {}", h);
        }
    }
}

#[test]
fn bearing_invariant_under_full_turns() {
    for h in (0..360u16).step_by(7) {
        for s in (0..360u16).step_by(11) {
            let b = relative_bearing(h, s);
            assert!(-180 < b && b <= 180);
            assert_eq!(b, relative_bearing(h + 360, s));
            assert_eq!(b, relative_bearing(h, s + 360));
        }
    }
    assert_eq!(relative_bearing(10, 0), -10);
    assert_eq!(relative_bearing(0, 180), 180);
    assert_eq!(relative_bearing(90, 0), -90);
}

#[test]
fn recentred_azimuth_lands_in_same_column() {
    let symbols = default_symbol_table();
    let glyph = symbols.get(Symbol::VeclocityVector);
    for theta in [190i16, 270, 350, 360] {
        let mut a = Grid::new(9, 32);
        let mut b = Grid::new(9, 32);
        let mut widget = SpeedVector::new(&symbols, 150, AspectRatio(16, 9));
        let mut telemetry = Telemetry::default();
        telemetry.speed_vector = SphericalCoordinate { rho: 50, theta, phi: 0 };
        widget.draw(&telemetry, &mut a, 0, 9);
        telemetry.speed_vector.theta = theta - 360;
        widget.draw(&telemetry, &mut b, 0, 9);
        assert_eq!(find(&a, glyph), find(&b, glyph));
    }
}

#[test]
fn zero_magnitude_sits_at_centre() {
    let symbols = default_symbol_table();
    let glyph = symbols.get(Symbol::VeclocityVector);
    for (theta, phi) in [(45i16, -45i8), (-170, 80), (0, 0), (180, -90)] {
        let mut grid = Grid::new(9, 32);
        let mut widget = SpeedVector::new(&symbols, 18, AspectRatio(16, 9));
        let mut telemetry = Telemetry::default();
        telemetry.speed_vector = SphericalCoordinate { rho: 0, theta, phi };
        widget.draw(&telemetry, &mut grid, 0, 9);
        assert_eq!(find(&grid, glyph), vec![(4, 16)]);
    }
    let mut grid = Grid::new(9, 32);
    let mut widget = SteerpointVector::new(&symbols, 18, AspectRatio(16, 9));
    let mut telemetry = Telemetry::default();
    telemetry.steerpoint.coordinate = SphericalCoordinate { rho: 0, theta: 1, phi: -1 };
    widget.draw(&telemetry, &mut grid, 0, 9);
    assert_eq!(find(&grid, symbols.get(Symbol::Square)), vec![(4, 16)]);
}

#[test]
fn magnitude_above_threshold_does_not_move_vector() {
    let symbols = default_symbol_table();
    let glyph = symbols.get(Symbol::VeclocityVector);
    let mut cells = Vec::new();
    for rho in [5u16, 6, 100, 65535] {
        let mut grid = Grid::new(16, 30);
        let mut widget = SpeedVector::new(&symbols, 150, AspectRatio(16, 9));
        let mut telemetry = Telemetry::default();
        telemetry.speed_vector = SphericalCoordinate { rho, theta: 20, phi: 12 };
        widget.draw(&telemetry, &mut grid, 0, 16);
        cells.push(find(&grid, glyph));
    }
    assert!(cells.windows(2).all(|w| w[0] == w[1]));
}

#[test]
fn with_ratio_values() {
    assert_eq!(with_ratio(5, 40), 40);
    assert_eq!(with_ratio(0, 40), 0);
    assert_eq!(with_ratio(3, 40), 14);
    assert_eq!(with_ratio(4, -45), -28);
}

#[test]
fn contended_cell_alternates() {
    let symbols = default_symbol_table();
    let glyph = symbols.get(Symbol::VeclocityVector);
    let mut widget = SpeedVector::new(&symbols, 18, AspectRatio(16, 9));
    let telemetry = Telemetry::default();
    let mut written = Vec::new();
    for _ in 0..6 {
        let mut grid = Grid::new(9, 32);
        grid.set(4, 16, b'X');
        widget.draw(&telemetry, &mut grid, 0, 9);
        written.push(grid.get(4, 16) == glyph);
    }
    assert_eq!(written, vec![true, false, true, false, true, false]);

    let mut other = SteerpointVector::new(&symbols, 18, AspectRatio(16, 9));
    let mut written = Vec::new();
    for _ in 0..4 {
        let mut grid = Grid::new(9, 32);
        grid.set(4, 16, b'X');
        other.draw(&telemetry, &mut grid, 0, 9);
        written.push(grid.get(4, 16) == symbols.get(Symbol::Square));
    }
    assert_eq!(written, vec![false, true, false, true]);
}

#[test]
fn counter_wraps_and_keeps_alternating() {
    let symbols = default_symbol_table();
    let mut widget = SpeedVector::new(&symbols, 18, AspectRatio(16, 9));
    widget.counter = 255;
    let telemetry = Telemetry::default();
    let mut grid = Grid::new(9, 32);
    grid.set(4, 16, b'X');
    widget.draw(&telemetry, &mut grid, 0, 9);
    assert_eq!(grid.get(4, 16), b'X');
    assert_eq!(widget.counter, 0);
    widget.draw(&telemetry, &mut grid, 0, 9);
    assert_eq!(grid.get(4, 16), symbols.get(Symbol::VeclocityVector));
}

#[test]
fn end_to_end_tape_and_velocity_vector() {
    let symbols = default_symbol_table();
    let px = PixelRatio(16, 30);
    let mut display = HUD::new(&symbols, 150, px, AspectRatio(16, 9));
    let mut telemetry = Telemetry::default();
    telemetry.heading = 10;
    telemetry.speed_vector = SphericalCoordinate { rho: 100, theta: 10, phi: -5 };
    let mut grid = Grid::new(16, 30);
    display.draw(&telemetry, slope(0, px, 30, 16), &mut grid);
    let top = grid.row(0);
    assert_eq!(&top[8..23], b"000 . 010 . 020");
    assert_eq!(find(&grid, symbols.get(Symbol::VeclocityVector)), vec![(9, 17)]);
}

#[test]
fn steerpoint_behind_left_is_left_of_centre() {
    let symbols = default_symbol_table();
    assert_eq!(relative_bearing(0, 350), -10);
    let mut tape = HeadingTape::new(&symbols);
    let mut telemetry = Telemetry::default();
    telemetry.heading = 0;
    telemetry.steerpoint.heading = 350;
    let mut grid = Grid::new(2, 17);
    tape.draw(&telemetry, &mut grid, 0, 2);
    let pointer = grid.row(1);
    let centre = pointer.iter().position(|b| *b == b'^').unwrap();
    let indicator = pointer.iter().position(|b| *b == symbols.get(Symbol::BoxDrawningLightUp)).unwrap();
    assert!(indicator < centre);
    assert_eq!(theta_to_offset(-10), 1);
    assert_eq!(theta_to_offset(10), 13);
    assert_eq!(theta_to_offset(180), 14);
    assert_eq!(theta_to_offset(-180), 0);
    assert_eq!(degree_to_offset(-9), -5);
}

fn scenario() -> Telemetry {
    let mut telemetry = Telemetry::default();
    telemetry.attitude = Attitude { pitch: 10, roll: 10 };
    telemetry.heading = 10;
    telemetry.speed_vector = SphericalCoordinate { rho: 100, theta: 10, phi: -5 };
    telemetry.steerpoint.coordinate = SphericalCoordinate { rho: 47, theta: 10, phi: -5 };
    telemetry
}

#[test]
fn fresh_compositors_render_identically() {
    let symbols = default_symbol_table();
    let px = PixelRatio(16, 30);
    let telemetry = scenario();
    let k = slope(10, px, 30, 16);
    let mut first = HUD::new(&symbols, 150, px, AspectRatio(16, 9));
    let mut second = HUD::new(&symbols, 150, px, AspectRatio(16, 9));
    let mut a = Grid::new(16, 30);
    let mut b = Grid::new(16, 30);
    first.draw(&telemetry, k, &mut a);
    second.draw(&telemetry, k, &mut b);
    for r in 0..16 {
        assert_eq!(a.row(r), b.row(r));
    }
    // The two centre vectors share a cell: the next frame hands it over.
    assert_eq!(a.get(9, 17), symbols.get(Symbol::VeclocityVector));
    first.draw(&telemetry, k, &mut a);
    assert_eq!(a.get(9, 17), symbols.get(Symbol::Square));
    first.draw(&telemetry, k, &mut a);
    assert_eq!(a.get(9, 17), symbols.get(Symbol::VeclocityVector));
}

#[test]
fn fade_distinguishes_blank_from_untouched() {
    let mut grid = Grid::new(1, 4);
    grid.set(0, 0, b' ');
    grid.set(0, 1, b'A');
    grid.set(0, 2, 200);
    grid.fade();
    assert_eq!(grid.row(0), vec![0, b' ', b' ', 0]);
    grid.fade();
    assert_eq!(grid.row(0), vec![0, 0, 0, 0]);
}

#[test]
fn frame_fits_rejects_small_grids_and_bad_heading() {
    let telemetry = Telemetry::default();
    assert!(HUD::frame_fits(&Grid::new(6, 15), &telemetry));
    assert!(!HUD::frame_fits(&Grid::new(5, 15), &telemetry));
    assert!(!HUD::frame_fits(&Grid::new(6, 14), &telemetry));
    let mut bad = Telemetry::default();
    bad.heading = 360;
    assert!(!HUD::frame_fits(&Grid::new(16, 30), &bad));
}

#[test]
fn number_with_dot_values() {
    assert_eq!(to_number_with_dot(b'0', 144), 144);
    assert_eq!(to_number_with_dot(b'7', 144), 151);
    assert_eq!(to_number_with_dot(b' ', 144), 144);
    assert_eq!(to_number_with_dot(b'-', 144), 144);
}

#[test]
fn field_of_view_spans() {
    assert_eq!(AspectRatio(16, 9).diagonal_to_width(150), 130);
    assert_eq!(AspectRatio(16, 9).diagonal_to_height(150), 73);
    assert_eq!(AspectRatio(4, 3).diagonal_to_width(150), 120);
    assert_eq!(AspectRatio(4, 3).diagonal_to_height(150), 90);
    assert_eq!(AspectRatio(16, 10).diagonal_to_width(150), 106);
    assert_eq!(AspectRatio(16, 10).diagonal_to_height(18), 12);
    assert_eq!(AspectRatio::from((4u8, 3u8)), AspectRatio(4, 3));
    assert_eq!(PixelRatio::from((10u8, 22u8)), PixelRatio(10, 22));
}

#[test]
fn time_to_go_and_clock() {
    let mut telemetry = Telemetry::default();
    assert_eq!(telemetry.time_to_go(), 0);
    telemetry.steerpoint.coordinate.rho = 47;
    assert_eq!(telemetry.time_to_go(), 0);
    telemetry.speed_vector.rho = 100;
    assert_eq!(telemetry.time_to_go(), 169);
    assert_eq!(telemetry.speed(), 100);
    assert_eq!(clock(169), b"00:02:49".to_vec());
    assert_eq!(clock(3600 * 99 + 59 * 60 + 59), b"99:59:59".to_vec());
    assert_eq!(clock(1_000_000), b"99:59:59".to_vec());
}

#[test]
fn units() {
    assert_eq!(Unit::Aviation.distance(), b"NM".to_vec());
    assert_eq!(Unit::Metric.distance(), b"KM".to_vec());
    assert_eq!(Unit::Aviation.elevation(), b"FT".to_vec());
    assert_eq!(Unit::Metric.elevation(), b"M".to_vec());
}

#[test]
fn notes_split_and_align() {
    let mut grid = Grid::new(4, 10);
    let lines = note(&b"AB\nCDE".to_vec(), Align::Right, &mut grid, 1, 4);
    assert_eq!(lines, 2);
    assert_eq!(grid.row(1), vec![0, 0, 0, 0, 0, 0, 0, 0, b'A', b'B']);
    assert_eq!(grid.row(2), vec![0, 0, 0, 0, 0, 0, 0, b'C', b'D', b'E']);
    let mut grid = Grid::new(2, 10);
    assert_eq!(note(&b"XY".to_vec(), Align::Center, &mut grid, 0, 2), 1);
    assert_eq!(grid.row(0), vec![0, 0, 0, 0, b'X', b'Y', 0, 0, 0, 0]);
    let mut grid = Grid::new(1, 4);
    assert_eq!(note(&b"A\nB\nTOOLONG".to_vec(), Align::Left, &mut grid, 0, 1), 3);
    assert_eq!(grid.row(0), vec![b'A', 0, 0, 0]);
    assert_eq!(note(&Vec::new(), Align::Left, &mut grid, 0, 1), 1);
}

#[test]
fn symbol_table_override() {
    let table = default_symbol_table().with(Symbol::Square, 42);
    assert_eq!(table.get(Symbol::Square), 42);
    assert_eq!(table.get(Symbol::Alpha), 5);
    assert_eq!(table.get(Symbol::ZeroWithTraillingDot), 144);
}
