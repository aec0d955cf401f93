//! The per-frame telemetry snapshot.
use vstd::prelude::*;

verus! {

#[derive(Copy, Clone, PartialEq, Eq, Structural, Debug)]
pub struct Attitude {
    /// Degrees in [-180, 180], clockwise.
    pub roll: i16,
    /// Degrees in [-90, 90], negative when sinking.
    pub pitch: i8,
}

impl Default for Attitude {
    fn default() -> (r: Self)
        ensures
            r == (Attitude { roll: 0, pitch: 0 }),
    {
        Attitude { roll: 0, pitch: 0 }
    }
}

/// A direction and a magnitude, relative to the aircraft's own heading.
#[derive(Copy, Clone, PartialEq, Eq, Structural, Debug)]
pub struct SphericalCoordinate {
    /// Magnitude; its unit depends on the vector.
    pub rho: u16,
    /// Azimuth in degrees, in (-180, 180].
    pub theta: i16,
    /// Elevation in degrees, in [-90, 90], negative when descending.
    pub phi: i8,
}

impl Default for SphericalCoordinate {
    fn default() -> (r: Self)
        ensures
            r == (SphericalCoordinate { rho: 0, theta: 0, phi: 0 }),
    {
        SphericalCoordinate { rho: 0, theta: 0, phi: 0 }
    }
}

/// A number with one decimal digit, held as tenths.
#[derive(Copy, Clone, PartialEq, Eq, Structural, Debug)]
pub struct Tenths(pub i8);

#[derive(Copy, Clone, PartialEq, Eq, Structural, Debug)]
pub enum Unit {
    Aviation,
    Metric,
}

pub open spec fn distance_suffix(u: Unit) -> Seq<u8> {
    match u {
        Unit::Aviation => seq![78u8, 77u8],
        Unit::Metric => seq![75u8, 77u8],
    }
}

pub open spec fn elevation_suffix(u: Unit) -> Seq<u8> {
    match u {
        Unit::Aviation => seq![70u8, 84u8],
        Unit::Metric => seq![77u8],
    }
}

impl Unit {
    /// Suffix of a distance: "NM" or "KM".
    pub fn distance(self) -> (r: Vec<u8>)
        ensures
            r@ == distance_suffix(self),
    {
        match self {
            Unit::Aviation => vec![78u8, 77u8],
            Unit::Metric => vec![75u8, 77u8],
        }
    }

    /// Suffix of an elevation: "FT" or "M".
    pub fn elevation(self) -> (r: Vec<u8>)
        ensures
            r@ == elevation_suffix(self),
    {
        match self {
            Unit::Aviation => vec![70u8, 84u8],
            Unit::Metric => vec![77u8],
        }
    }
}

/// The point the aircraft is steering to.
#[derive(Clone, Debug)]
pub struct Steerpoint {
    /// Zero for home or base.
    pub number: u8,
    /// ASCII name, "HOME" for number zero.
    pub name: Vec<u8>,
    /// Bearing of the steerpoint in degrees, in [0, 360).
    pub heading: u16,
    /// Direction to it; `rho` is the distance in tenths of km or nm.
    pub coordinate: SphericalCoordinate,
}

impl Default for Steerpoint {
    fn default() -> (r: Self)
        ensures
            r.number == 0,
            r.name@ == seq![72u8, 79u8, 77u8, 69u8],
            r.heading == 0,
            r.coordinate == (SphericalCoordinate { rho: 0, theta: 0, phi: 0 }),
    {
        Steerpoint { number: 0, name: vec![72u8, 79u8, 77u8, 69u8], heading: 0, coordinate: SphericalCoordinate::default() }
    }
}

/// Free ASCII text for the left, centre and right of the lower half;
/// a newline starts another row.
#[derive(Clone, Debug)]
pub struct Notes {
    pub left: Vec<u8>,
    pub center: Vec<u8>,
    pub right: Vec<u8>,
}

impl Default for Notes {
    fn default() -> (r: Self)
        ensures
            r.left@.len() == 0,
            r.center@.len() == 0,
            r.right@.len() == 0,
    {
        Notes { left: Vec::new(), center: Vec::new(), right: Vec::new() }
    }
}

/// Marks a height that is not available.
pub const HEIGHT_UNAVAILABLE: i16 = -32768;

#[derive(Clone, Debug)]
pub struct Telemetry {
    /// Feet or metres.
    pub altitude: i16,
    /// Angle of attack, in degrees.
    pub aoa: Tenths,
    pub attitude: Attitude,
    /// Degrees in [0, 360), from north.
    pub heading: u16,
    /// Percent.
    pub battery: u8,
    /// In g.
    pub g_force: Tenths,
    /// Feet or metres above ground; `HEIGHT_UNAVAILABLE` when not known.
    pub height: i16,
    pub notes: Notes,
    /// Percent.
    pub rssi: u8,
    pub unit: Unit,
    /// Velocity vector; `rho` is the speed in km/h or knots.
    pub speed_vector: SphericalCoordinate,
    /// Vertical rate, feet per minute or metres per second.
    pub vario: i16,
    pub steerpoint: Steerpoint,
}

impl Default for Telemetry {
    fn default() -> (r: Self)
        ensures
            r.altitude == 0,
            r.aoa == Tenths(0),
            r.attitude == (Attitude { roll: 0, pitch: 0 }),
            r.heading == 0,
            r.battery == 100,
            r.g_force == Tenths(10),
            r.height == 0,
            r.rssi == 0,
            r.unit == Unit::Aviation,
            r.speed_vector == (SphericalCoordinate { rho: 0, theta: 0, phi: 0 }),
            r.vario == 0,
            r.steerpoint.number == 0,
            r.steerpoint.name@ == seq![72u8, 79u8, 77u8, 69u8],
            r.steerpoint.heading == 0,
            r.steerpoint.coordinate == (SphericalCoordinate { rho: 0, theta: 0, phi: 0 }),
            r.notes.left@.len() == 0,
            r.notes.center@.len() == 0,
            r.notes.right@.len() == 0,
    {
        Telemetry {
            altitude: 0,
            attitude: Attitude::default(),
            heading: 0,
            aoa: Tenths(0),
            battery: 100,
            g_force: Tenths(10),
            height: 0,
            notes: Notes::default(),
            rssi: 0,
            steerpoint: Steerpoint::default(),
            unit: Unit::Aviation,
            speed_vector: SphericalCoordinate::default(),
            vario: 0,
        }
    }
}

/// Seconds to reach the steerpoint: distance in tenths over speed per hour,
/// zero when either is zero.
pub open spec fn time_to_go_spec(distance: u16, speed: u16) -> nat {
    if distance > 0 && speed > 0 {
        (distance as nat * 3600 / 10 / speed as nat)
    } else {
        0
    }
}

impl Telemetry {
    pub fn speed(&self) -> (r: u16)
        ensures
            r == self.speed_vector.rho,
    {
        self.speed_vector.rho
    }

    pub fn time_to_go(&self) -> (r: u32)
        ensures
            r == time_to_go_spec(self.steerpoint.coordinate.rho, self.speed_vector.rho),
    {
        let rho = self.steerpoint.coordinate.rho;
        let speed = self.speed_vector.rho;
        if rho > 0 && speed > 0 {
            return rho as u32 * 3600 / 10 / speed as u32;
        }
        0
    }
}

} // verus!
