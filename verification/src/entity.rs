//! The tracked entities: aircraft and satellites.
//!
//! Coordinates, altitudes and velocities are fixed-point integers in
//! millionths of their unit (degrees for latitude, longitude and
//! heading; distance-units for altitude and velocity).  Positions are
//! not clamped to the geographic range: they may drift past 90 or 180
//! degrees over time, bounded only by the machine range `COORD_MIN ..=
//! COORD_MAX`.

use vstd::prelude::*;

verus! {

/// Smallest coordinate the model holds, in millionths of a degree.
pub const COORD_MIN: i64 = -9_000_000_000_000_000_000;

/// Largest coordinate the model holds, in millionths of a degree.
pub const COORD_MAX: i64 = 9_000_000_000_000_000_000;

/// A tracked aircraft.
pub struct Aircraft {
    /// Transponder address, six or more lower-case hex digits.
    pub icao24: String,
    /// Airline callsign, when one is known.
    pub callsign: Option<String>,
    /// Latitude in millionths of a degree.
    pub latitude: i64,
    /// Longitude in millionths of a degree.
    pub longitude: i64,
    /// Altitude in millionths of a distance-unit.
    pub altitude: i64,
    /// Ground speed in millionths of a distance-unit per hour.
    pub velocity: i64,
    /// Heading in millionths of a degree, measured from north.
    pub heading: i64,
    /// Seconds since the epoch of the last position update.
    pub last_update: u64,
}

impl Aircraft {
    /// The bounds every stored aircraft obeys: coordinates within the
    /// machine range, a nonnegative speed, a nonnegative heading.
    pub open spec fn wf(self) -> bool {
        &&& COORD_MIN <= self.latitude <= COORD_MAX
        &&& COORD_MIN <= self.longitude <= COORD_MAX
        &&& 0 <= self.velocity
        &&& 0 <= self.heading
    }

    /// Decides `wf` at run time, for callers outside the proof.
    pub fn check_bounds(&self) -> (r: bool)
        ensures
            r == self.wf(),
    {
        COORD_MIN <= self.latitude && self.latitude <= COORD_MAX && COORD_MIN <= self.longitude
            && self.longitude <= COORD_MAX && 0 <= self.velocity && 0 <= self.heading
    }

    /// A field-for-field copy.
    pub fn duplicate(&self) -> (r: Aircraft)
        ensures
            r == *self,
    {
        Aircraft {
            icao24: self.icao24.clone(),
            callsign: match &self.callsign {
                Some(c) => Some(c.clone()),
                None => None,
            },
            latitude: self.latitude,
            longitude: self.longitude,
            altitude: self.altitude,
            velocity: self.velocity,
            heading: self.heading,
            last_update: self.last_update,
        }
    }
}

/// A tracked satellite.  Satellites are served as-is and are not moved
/// by the simulation tick.
pub struct Satellite {
    /// NORAD catalogue number.
    pub norad_id: u32,
    /// Catalogue name.
    pub name: String,
    /// Latitude in millionths of a degree.
    pub latitude: i64,
    /// Longitude in millionths of a degree.
    pub longitude: i64,
    /// Altitude in millionths of a distance-unit.
    pub altitude: i64,
    /// Orbital speed in millionths of a distance-unit per second.
    pub velocity: i64,
}

impl Satellite {
    /// A field-for-field copy.
    pub fn duplicate(&self) -> (r: Satellite)
        ensures
            r == *self,
    {
        Satellite {
            norad_id: self.norad_id,
            name: self.name.clone(),
            latitude: self.latitude,
            longitude: self.longitude,
            altitude: self.altitude,
            velocity: self.velocity,
        }
    }
}

} // verus!
