use ascii::ToAsciiChar;
use micromath::F32Ext;

use hud::altitude::Altitude;
use hud::aoa::AOA;
use hud::battery::Battery;
use hud::g_force::GForce;
use hud::grid::Grid;
use hud::heading_tape::{HeadingTape, HEADING_TAPE_WIDTH};
use hud::height::Height;
use hud::hud::HUD;
use hud::pitch_ladder::{fold_roll, Pitchladder};
use hud::rssi::RSSI;
use hud::speed::Speed;
use hud::speed_vector::SpeedVector;
use hud::steerpoint::Steerpoint;
use hud::steerpoint_vector::SteerpointVector;
use hud::symbol::default_symbol_table;
use hud::telemetry::{Attitude, Notes, SphericalCoordinate, Telemetry, Tenths, HEIGHT_UNAVAILABLE};
use hud::vario::Vario;
use hud::{AspectRatio, PixelRatio};

const SYMBOLS: &str = "⏉β╵⏂⍺☐";
const LINES: &str = "▔⎺⎻─⎼⎽▁▏▏|⎪⎪";
const DOTTED_NUMBERS: &str = "₀⒈⒉⒊⒋⒌⒍⒎⒏⒐";

fn to_utf8_string(grid: &Grid, from: usize, to: usize) -> String {
    let mut output = String::new();
    let symbols: Vec<char> = SYMBOLS.chars().collect();
    let lines: Vec<char> = LINES.chars().collect();
    let dotted_numbers: Vec<char> = DOTTED_NUMBERS.chars().collect();
    for r in from..to {
        for byte in grid.row(r) {
            output.push(match byte {
                0 => ' ',
                1..=6 => *symbols.get(byte as usize - 1).unwrap(),
                128..=139 => *lines.get(byte as usize - 128).unwrap(),
                144..=154 => *dotted_numbers.get(byte as usize - 144).unwrap(),
                _ => byte.to_ascii_char().unwrap().as_char(),
            });
        }
    }
    output
}

fn screen(grid: &Grid) -> String {
    to_utf8_string(grid, 0, grid.rows())
}

fn fill_edge(grid: &mut Grid) {
    let last = grid.cols() - 1;
    for r in 0..grid.rows() {
        if grid.get(r, last) == 0 {
            grid.set(r, last, b'.');
        }
        if grid.get(r, 0) == 0 {
            grid.set(r, 0, b'.');
        }
    }
}

fn zero(grid: &mut Grid) {
    for r in 0..grid.rows() {
        grid.fill_row(r, 0);
    }
}

const DEGREE_PER_RAD: f32 = 180.0 / core::f32::consts::PI;

/// The horizon's slope in thousandths, for a region of `width` x `height`.
fn slope(roll: i16, pixel: PixelRatio, width: usize, height: usize) -> i64 {
    let roll = fold_roll(roll);
    let ratio = (pixel.0 as isize * width as isize) as f32 / (pixel.1 as isize * height as isize) as f32;
    (F32Ext::tan(roll as f32 / DEGREE_PER_RAD) * ratio * 1000.0) as i64
}

fn draw_ladder(ladder: &Pitchladder, telemetry: &Telemetry, grid: &mut Grid) {
    let k = slope(telemetry.attitude.roll, ladder.char_pixel_ratio, grid.cols(), grid.rows());
    let rows = grid.rows();
    ladder.draw(telemetry, k, grid, 0, rows);
}

#[test]
fn altitude_test_altitude() {
    let mut buffer = Grid::new(1, 6);
    let altitude = Altitude::default();
    let mut telemetry = Telemetry::default();
    telemetry.altitude = 3000;
    altitude.draw(&telemetry, &mut buffer, 0, 1);
    assert_eq!("  3000", screen(&buffer));
    telemetry.altitude = 30000;
    altitude.draw(&telemetry, &mut buffer, 0, 1);
    assert_eq!(" 30000", screen(&buffer));
}

#[test]
fn test_aoa() {
    let mut buffer = Grid::new(1, 6);
    let aoa = AOA::new(&default_symbol_table());
    let mut telemetry = Telemetry::default();
    telemetry.aoa = Tenths(31);
    aoa.draw(&telemetry, &mut buffer, 0, 1);
    assert_eq!("⍺  ⒊1 ", screen(&buffer));

    buffer.fill_row(0, 0);
    telemetry.aoa = Tenths(-1);
    aoa.draw(&telemetry, &mut buffer, 0, 1);
    assert_eq!("⍺ -₀1 ", screen(&buffer));
}

#[test]
fn battery_test_altitude() {
    let mut buffer = Grid::new(1, 4);
    let battery = Battery::new(&default_symbol_table());
    let mut telemetry = Telemetry::default();
    telemetry.battery = 100;
    battery.draw(&telemetry, &mut buffer, 0, 1);
    assert_eq!("β100", screen(&buffer));
}

#[test]
fn test_g_force() {
    let mut buffer = Grid::new(1, 6);
    let g_force = GForce::new(&default_symbol_table());
    let mut telemetry = Telemetry::default();
    telemetry.g_force = Tenths(11);
    g_force.draw(&telemetry, &mut buffer, 0, 1);
    assert_eq!("G  ⒈1 ", screen(&buffer));

    buffer.fill_row(0, 0);
    telemetry.g_force = Tenths(9);
    g_force.draw(&telemetry, &mut buffer, 0, 1);
    assert_eq!("G  ₀9 ", screen(&buffer));
}

#[test]
fn test_000_center_and_conflict_symbol() {
    let mut buffer = Grid::new(2, HEADING_TAPE_WIDTH + 2);
    let mut tape = HeadingTape::new(&default_symbol_table());
    let telemetry = Telemetry::default();
    tape.draw(&telemetry, &mut buffer, 0, 2);
    assert_eq!(" 350 . 000 . 010 ", to_utf8_string(&buffer, 0, 1));
    assert_eq!("        ^        ", to_utf8_string(&buffer, 1, 2));
    tape.draw(&telemetry, &mut buffer, 0, 2);
    assert_eq!("        ╵        ", to_utf8_string(&buffer, 1, 2));
}

#[test]
fn test_different_heading() {
    let mut buffer = Grid::new(2, HEADING_TAPE_WIDTH + 2);
    let mut tape = HeadingTape::new(&default_symbol_table());
    let mut telemetry = Telemetry::default();
    telemetry.heading = 359;
    tape.draw(&telemetry, &mut buffer, 0, 2);
    assert_eq!("  350 . 000 . 01 ", to_utf8_string(&buffer, 0, 1));
    telemetry.heading = 358;
    tape.draw(&telemetry, &mut buffer, 0, 2);
    assert_eq!(" . 350 . 000 . 0 ", to_utf8_string(&buffer, 0, 1));
    telemetry.heading = 356;
    tape.draw(&telemetry, &mut buffer, 0, 2);
    assert_eq!("  . 350 . 000 .  ", to_utf8_string(&buffer, 0, 1));
}

#[test]
fn heading_tape_test_steerpoint() {
    let mut buffer = Grid::new(2, HEADING_TAPE_WIDTH + 2);
    let mut tape = HeadingTape::new(&default_symbol_table());
    let mut telemetry = Telemetry::default();
    telemetry.steerpoint.heading = 0;
    tape.draw(&telemetry, &mut buffer, 0, 2);
    assert_eq!(" 350 . 000 . 010 ", to_utf8_string(&buffer, 0, 1));
    assert_eq!("        ^        ", to_utf8_string(&buffer, 1, 2));

    buffer.fill_row(1, 0);
    telemetry.steerpoint.heading = 90;
    tape.draw(&telemetry, &mut buffer, 0, 2);
    assert_eq!("        ^      ╵ ", to_utf8_string(&buffer, 1, 2));

    buffer.fill_row(1, 0);
    telemetry.steerpoint.heading = 180;
    tape.draw(&telemetry, &mut buffer, 0, 2);
    assert_eq!("        ^      ╵ ", to_utf8_string(&buffer, 1, 2));

    buffer.fill_row(1, 0);
    telemetry.steerpoint.heading = 270;
    tape.draw(&telemetry, &mut buffer, 0, 2);
    assert_eq!(" ╵      ^        ", to_utf8_string(&buffer, 1, 2));
}

#[test]
fn test_height() {
    let mut buffer = Grid::new(1, 7);
    let height = Height::default();
    let mut telemetry = Telemetry::default();
    telemetry.height = 98;
    height.draw(&telemetry, &mut buffer, 0, 1);
    assert_eq!("  98   ", screen(&buffer));

    buffer.fill_row(0, 0);
    telemetry.height = i16::MIN;
    height.draw(&telemetry, &mut buffer, 0, 1);
    assert_eq!("       ", screen(&buffer));
}

fn default_telemetry() -> Telemetry {
    let mut telemetry = Telemetry::default();
    telemetry.altitude = 1000;
    telemetry.attitude = Attitude { pitch: 10, roll: 10 };
    telemetry.heading = 10;
    telemetry.aoa = Tenths(31);
    telemetry.g_force = Tenths(11);
    telemetry.height = 99;
    telemetry.notes = Notes { left: b"MAN".to_vec(), ..Default::default() };
    telemetry.rssi = 100;
    telemetry.vario = 100;
    telemetry.speed_vector = SphericalCoordinate { rho: 100, theta: 10, phi: -5 };
    telemetry.steerpoint.coordinate = SphericalCoordinate { rho: 47, theta: -10, phi: -14 };
    telemetry
}

#[test]
fn test_hud() {
    let mut buffer = Grid::new(16, 30);
    let symbols = default_symbol_table();
    let px_ratio = PixelRatio(16, 30);
    let mut hud = HUD::new(&symbols, 150, px_ratio, AspectRatio(16, 9));
    let telemetry = default_telemetry();
    assert!(HUD::frame_fits(&buffer, &telemetry));
    let k = slope(telemetry.attitude.roll, px_ratio, 30, 16);
    hud.draw(&telemetry, k, &mut buffer);
    fill_edge(&mut buffer);

    let expected = "⏉100    000 . 010 . 020   β100\
                    .        ╵     ^             .\
                    .                            .\
                    .                            .\
                    .                            .\
                    ▔⎺⎺⎻⎻─⎼⎼⎽⎽▁                  .\
                    .          ▔▔⎺⎺⎻──⎼⎼⎽▁▁      .\
                    .                      ▔▔⎺⎻⎻──\
                    . 100                     1000\
                    ⍺  ⒊1            ⏂         100\
                    G  ⒈1                        .\
                    MAN          ☐               .\
                    .                            .\
                    .                       0/HOME\
                    .                         ⒋7NM\
                    .             99      00:02:49";
    assert_eq!(expected, screen(&buffer));
}

const PX_RATIO: PixelRatio = PixelRatio(10, 22);
const ASPECT_RATIO: AspectRatio = AspectRatio(16, 10);

#[test]
fn test_horizental() {
    let mut buffer = Grid::new(9, 32);
    let pitch_ladder = Pitchladder::new(&default_symbol_table(), 150, PX_RATIO, ASPECT_RATIO);
    let telemetry = Telemetry::default();
    draw_ladder(&pitch_ladder, &telemetry, &mut buffer);
    fill_edge(&mut buffer);
    let expected = ".                              .\
                    .                              .\
                    .                              .\
                    .                              .\
                    ────────────────────────────────\
                    .                              .\
                    .                              .\
                    .                              .\
                    .                              .";
    assert_eq!(expected, screen(&buffer));
}

#[test]
fn test_pitch() {
    let mut buffer = Grid::new(9, 32);
    let pitch_ladder = Pitchladder::new(&default_symbol_table(), 150, PX_RATIO, ASPECT_RATIO);
    let mut telemetry = Telemetry::default();
    telemetry.attitude.pitch = 7;
    draw_ladder(&pitch_ladder, &telemetry, &mut buffer);
    fill_edge(&mut buffer);
    let expected = ".                              .\
                    .                              .\
                    .                              .\
                    ▁▁▁▁▁▁▁▁▁▁▁▁▁▁▁▁▁▁▁▁▁▁▁▁▁▁▁▁▁▁▁▁\
                    .                              .\
                    .                              .\
                    .                              .\
                    .                              .\
                    .                              .";
    assert_eq!(expected, screen(&buffer));
}

#[test]
fn test_shallow_roll_left() {
    let mut buffer = Grid::new(9, 32);
    let pitch_ladder = Pitchladder::new(&default_symbol_table(), 18, PX_RATIO, ASPECT_RATIO);
    let mut telemetry = Telemetry::default();
    telemetry.attitude.roll = -15;
    draw_ladder(&pitch_ladder, &telemetry, &mut buffer);
    fill_edge(&mut buffer);
    let expected = ".                              .\
                    .                              .\
                    .                            ▁▁⎽\
                    .                    ▁⎽⎼──⎻⎺▔  .\
                    .           ▁⎽⎽⎼─⎻⎺⎺▔          .\
                    .   ▁⎽⎼─⎻⎻⎺▔                   .\
                    ⎻⎺▔▔                           .\
                    .                              .\
                    .                              .";
    assert_eq!(expected, screen(&buffer));
}

#[test]
fn test_shallow_roll_right() {
    let mut buffer = Grid::new(9, 32);
    let pitch_ladder = Pitchladder::new(&default_symbol_table(), 18, PX_RATIO, ASPECT_RATIO);
    let mut telemetry = Telemetry::default();
    telemetry.attitude.roll = 15;
    draw_ladder(&pitch_ladder, &telemetry, &mut buffer);
    fill_edge(&mut buffer);
    let expected = ".                              .\
                    .                              .\
                    ⎼⎽▁▁                           .\
                    .   ▔⎺⎻─⎼⎼⎽▁                   .\
                    .           ▔⎺⎺⎻─⎼⎽⎽▁          .\
                    .                    ▔⎺⎻──⎼⎽▁  .\
                    .                            ▔▔⎺\
                    .                              .\
                    .                              .";
    assert_eq!(expected, screen(&buffer));
}

#[test]
fn test_roll_left() {
    let mut buffer = Grid::new(9, 32);
    let pitch_ladder = Pitchladder::new(&default_symbol_table(), 18, PX_RATIO, ASPECT_RATIO);
    let mut telemetry = Telemetry::default();
    telemetry.attitude.roll = -30;
    draw_ladder(&pitch_ladder, &telemetry, &mut buffer);
    fill_edge(&mut buffer);
    let expected = ".                             ▁⎼\
                    .                         ▁⎼─⎺▔.\
                    .                     ▁⎼─⎺▔    .\
                    .                 ▁⎼─⎺▔        .\
                    .             ▁⎼─⎺▔            .\
                    .         ▁⎼─⎺▔                .\
                    .     ▁⎼─⎺▔                    .\
                    . ▁⎼─⎺▔                        .\
                    ─⎺▔                            .";
    assert_eq!(expected, screen(&buffer));
}

#[test]
fn test_roll_right() {
    let mut buffer = Grid::new(9, 32);
    let pitch_ladder = Pitchladder::new(&default_symbol_table(), 18, PX_RATIO, ASPECT_RATIO);
    let mut telemetry = Telemetry::default();
    telemetry.attitude.roll = 45;
    draw_ladder(&pitch_ladder, &telemetry, &mut buffer);
    fill_edge(&mut buffer);
    // The walk starts above the grid; those sub-rows are not drawn.
    let expected = ".     ⎺⎼▁                      .\
                    .       ▔─▁                    .\
                    .          ⎻▁                  .\
                    .            ⎻⎽▁               .\
                    .              ⎺⎼▁             .\
                    .                ▔─▁           .\
                    .                   ─▁         .\
                    .                     ⎻⎽▁      .\
                    .                       ⎺⎼▁    .";
    assert_eq!(expected, screen(&buffer));
}

#[test]
fn test_deep_roll_left() {
    let mut buffer = Grid::new(9, 32);
    let pitch_ladder = Pitchladder::new(&default_symbol_table(), 18, PX_RATIO, ASPECT_RATIO);
    let mut telemetry = Telemetry::default();
    telemetry.attitude.roll = -80;
    draw_ladder(&pitch_ladder, &telemetry, &mut buffer);
    fill_edge(&mut buffer);
    let expected = ".               ⎪              .\
                    .               ⎪              .\
                    .               ⎪              .\
                    .               |              .\
                    .               |              .\
                    .               |              .\
                    .               ▏              .\
                    .               ▏              .\
                    .               ▏              .";
    assert_eq!(expected, screen(&buffer));
}

#[test]
fn test_roll_more_than_70_with_pitch() {
    let mut buffer = Grid::new(9, 32);
    let pitch_ladder = Pitchladder::new(&default_symbol_table(), 18, PX_RATIO, ASPECT_RATIO);
    let mut telemetry = Telemetry::default();
    telemetry.attitude.roll = 71;
    telemetry.attitude.pitch = 10;
    draw_ladder(&pitch_ladder, &telemetry, &mut buffer);
    fill_edge(&mut buffer);
    let expected = ".                ▏             .\
                    .                ▏             .\
                    .                |             .\
                    .                ⎪             .\
                    .                ⎪             .\
                    .                 ▏            .\
                    .                 ▏            .\
                    .                 |            .\
                    .                 ⎪            .";
    assert_eq!(expected, screen(&buffer));
}

#[test]
fn test_vertical() {
    let mut buffer = Grid::new(9, 32);
    let pitch_ladder = Pitchladder::new(&default_symbol_table(), 18, PX_RATIO, ASPECT_RATIO);
    let mut telemetry = Telemetry::default();
    telemetry.attitude.roll = 90;
    draw_ladder(&pitch_ladder, &telemetry, &mut buffer);
    fill_edge(&mut buffer);
    let expected = ".               |              .\
                    .               |              .\
                    .               |              .\
                    .               |              .\
                    .               |              .\
                    .               |              .\
                    .               |              .\
                    .               |              .\
                    .               |              .";
    assert_eq!(expected, screen(&buffer));
}

#[test]
fn test_ranges() {
    let mut telemetry = Telemetry::default();
    let mut buffer = Grid::new(9, 32);
    let pitch_ladder = Pitchladder::new(&default_symbol_table(), 18, PX_RATIO, ASPECT_RATIO);
    for i in 0..180 {
        telemetry.attitude.roll = i as i16;
        draw_ladder(&pitch_ladder, &telemetry, &mut buffer);
    }
}

#[test]
fn test_rssi() {
    let mut buffer = Grid::new(1, 4);
    let rssi = RSSI::new(&default_symbol_table());
    let mut telemetry = Telemetry::default();
    telemetry.rssi = 100;
    rssi.draw(&telemetry, &mut buffer, 0, 1);
    assert_eq!("⏉100", screen(&buffer));
}

#[test]
fn speed_test_altitude() {
    let mut buffer = Grid::new(1, 6);
    let altitude = Speed::default();
    let mut telemetry = Telemetry::default();
    telemetry.speed_vector.rho = 100;
    altitude.draw(&telemetry, &mut buffer, 0, 1);
    assert_eq!("  100 ", screen(&buffer));
}

#[test]
fn test_speed_vector() {
    let mut buffer = Grid::new(9, 32);
    let mut speed_vector = SpeedVector::new(&default_symbol_table(), 18, AspectRatio(16, 9));
    let mut telemetry = Telemetry::default();
    telemetry.speed_vector.theta = 1;
    telemetry.speed_vector.phi = -1;
    speed_vector.draw(&telemetry, &mut buffer, 0, 9);
    fill_edge(&mut buffer);
    let expected = ".                              .\
                    .                              .\
                    .                              .\
                    .                              .\
                    .               ⏂              .\
                    .                              .\
                    .                              .\
                    .                              .\
                    .                              .";
    assert_eq!(expected, screen(&buffer));

    zero(&mut buffer);
    telemetry.speed_vector.rho = 5;
    speed_vector.draw(&telemetry, &mut buffer, 0, 9);
    fill_edge(&mut buffer);
    let expected = ".                              .\
                    .                              .\
                    .                              .\
                    .                              .\
                    .                              .\
                    .                 ⏂            .\
                    .                              .\
                    .                              .\
                    .                              .";
    assert_eq!(expected, screen(&buffer));

    zero(&mut buffer);
    telemetry.speed_vector.theta = 45;
    telemetry.speed_vector.phi = -45;
    speed_vector.draw(&telemetry, &mut buffer, 0, 9);
    fill_edge(&mut buffer);
    let expected = ".                              .\
                    .                              .\
                    .                              .\
                    .                              .\
                    .                              .\
                    .                              .\
                    .                              .\
                    .                              .\
                    .                              ⏂";
    assert_eq!(expected, screen(&buffer));
}

#[test]
fn steerpoint_test_steerpoint() {
    let mut buffer = Grid::new(3, 10);
    let steerpoint = Steerpoint::new(&default_symbol_table());
    let mut telemetry = Telemetry::default();
    steerpoint.draw(&telemetry, &mut buffer, 0, 3);
    assert_eq!("    0/HOME      ₀0NM  00:00:00", screen(&buffer));

    zero(&mut buffer);
    telemetry.steerpoint.coordinate.rho = 600;
    steerpoint.draw(&telemetry, &mut buffer, 0, 3);
    assert_eq!("    0/HOME      60NM  00:00:00", screen(&buffer));

    zero(&mut buffer);
    telemetry.speed_vector.rho = 60;
    steerpoint.draw(&telemetry, &mut buffer, 0, 3);
    assert_eq!("    0/HOME      60NM  01:00:00", screen(&buffer));

    zero(&mut buffer);
    telemetry.speed_vector.rho = 61;
    steerpoint.draw(&telemetry, &mut buffer, 0, 3);
    assert_eq!("    0/HOME      60NM  00:59:00", screen(&buffer));

    zero(&mut buffer);
    telemetry.steerpoint.coordinate.rho = 99;
    steerpoint.draw(&telemetry, &mut buffer, 0, 3);
    assert_eq!("    0/HOME      ⒐9NM  00:09:44", screen(&buffer));

    zero(&mut buffer);
    telemetry.steerpoint.coordinate.rho = 98;
    steerpoint.draw(&telemetry, &mut buffer, 0, 3);
    assert_eq!("    0/HOME      ⒐8NM  00:09:38", screen(&buffer));
}

#[test]
fn test_steerpoint_vector() {
    let mut buffer = Grid::new(9, 32);
    let mut steerpoint_vector = SteerpointVector::new(&default_symbol_table(), 18, AspectRatio(16, 9));
    let mut telemetry = Telemetry::default();
    telemetry.steerpoint.coordinate.rho = 5;
    telemetry.steerpoint.coordinate.theta = 1;
    telemetry.steerpoint.coordinate.phi = -1;
    steerpoint_vector.draw(&telemetry, &mut buffer, 0, 9);
    fill_edge(&mut buffer);
    let expected = ".                              .\
                    .                              .\
                    .                              .\
                    .                              .\
                    .                              .\
                    .                 ☐            .\
                    .                              .\
                    .                              .\
                    .                              .";
    assert_eq!(expected, screen(&buffer));

    zero(&mut buffer);
    telemetry.steerpoint.coordinate.phi = 1;
    steerpoint_vector.draw(&telemetry, &mut buffer, 0, 9);
    fill_edge(&mut buffer);
    let expected = ".                              .\
                    .                              .\
                    .                              .\
                    .                 ☐            .\
                    .                              .\
                    .                              .\
                    .                              .\
                    .                              .\
                    .                              .";
    assert_eq!(expected, screen(&buffer));

    zero(&mut buffer);
    telemetry.steerpoint.coordinate.theta = 45;
    telemetry.steerpoint.coordinate.phi = -45;
    steerpoint_vector.draw(&telemetry, &mut buffer, 0, 9);
    fill_edge(&mut buffer);
    let expected = ".                              .\
                    .                              .\
                    .                              .\
                    .                              .\
                    .                              .\
                    .                              .\
                    .                              .\
                    .                              .\
                    .                              ☐";
    assert_eq!(expected, screen(&buffer));
}

#[test]
fn vario_test_altitude() {
    let mut buffer = Grid::new(1, 6);
    let vario = Vario::default();
    let mut telemetry = Telemetry::default();
    telemetry.vario = 1000;
    vario.draw(&telemetry, &mut buffer, 0, 1);
    assert_eq!("  1000", screen(&buffer));
    telemetry.vario = -1000;
    vario.draw(&telemetry, &mut buffer, 0, 1);
    assert_eq!(" -1000", screen(&buffer));
}

#[test]
fn height_unavailable_uses_no_row() {
    let mut buffer = Grid::new(1, 7);
    let height = Height::default();
    let mut telemetry = Telemetry::default();
    telemetry.height = HEIGHT_UNAVAILABLE;
    assert_eq!(0, height.draw(&telemetry, &mut buffer, 0, 1));
    telemetry.height = -5;
    assert_eq!(1, height.draw(&telemetry, &mut buffer, 0, 1));
    assert_eq!("  -5   ", screen(&buffer));
}
