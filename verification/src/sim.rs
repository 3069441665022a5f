//! The simulation tick: dead reckoning in fixed-point arithmetic.
//!
//! One tick moves an aircraft one second along its heading.  With the
//! velocity v in millionths of a distance-unit per hour, the per-tick
//! displacement is `d = v / 3600`; the latitude changes by
//! `d * cos(heading) / K` and the longitude by
//! `d * sin(heading) / (K * cos(new latitude))`, with K = 111.32
//! degrees per distance-unit.  Quotients truncate toward zero, as the
//! division of real magnitudes does.  Where the cosine of the new
//! latitude is exactly zero (a pole crossing) the longitude quotient is
//! unbounded; the tick leaves the longitude unchanged there.  Results
//! saturate at the machine coordinate range `COORD_MIN ..= COORD_MAX`.

use vstd::prelude::*;
use vstd::math::abs;
use vstd::arithmetic::div_mod::{lemma_div_of0, lemma_div_nonincreasing};
use vstd::arithmetic::mul::{lemma_mul_upper_bound, lemma_mul_strictly_positive};
use crate::entity::{Aircraft, COORD_MIN, COORD_MAX};
use crate::trig;
use crate::trig::{cos_mdeg, sin_mdeg};

verus! {

/// Seconds in one hour: the velocity is per hour, the tick per second.
pub const SECONDS_PER_HOUR: i64 = 3600;

/// Degrees per distance-unit, scaled by one million: 111.32.
pub const K_MICRO: i64 = 111_320_000;

/// Per-tick displacement in millionths of a distance-unit.
pub open spec fn displacement(v: int) -> int {
    v / (SECONDS_PER_HOUR as int)
}

/// The latitude change of one tick: `d * cos(heading) / K`, truncating
/// toward zero.
pub open spec fn lat_delta(d: int, cos_h: int) -> int {
    let mag = (d * abs(cos_h)) / (K_MICRO as int);
    if cos_h >= 0 {
        mag
    } else {
        -mag
    }
}

/// The longitude change of one tick:
/// `d * sin(heading) / (K * cos(new latitude))`, truncating toward
/// zero, and zero at a pole crossing.
pub open spec fn lon_delta(d: int, sin_h: int, cos_lat: int) -> int {
    if cos_lat == 0 {
        0
    } else {
        let mag = (d * abs(sin_h) * 1_000_000) / ((K_MICRO as int) * abs(cos_lat));
        if (sin_h >= 0) == (cos_lat >= 0) {
            mag
        } else {
            -mag
        }
    }
}

/// Saturation at the machine coordinate range.
pub open spec fn clamp_coord(x: int) -> int {
    if x < COORD_MIN {
        COORD_MIN as int
    } else if x > COORD_MAX {
        COORD_MAX as int
    } else {
        x
    }
}

/// The latitude after one tick.
pub open spec fn advance_latitude(a: Aircraft) -> int {
    clamp_coord(a.latitude + lat_delta(displacement(a.velocity as int), cos_mdeg(a.heading as int)))
}

/// The longitude after one tick, computed from the new latitude.
pub open spec fn advance_longitude(a: Aircraft) -> int {
    clamp_coord(
        a.longitude + lon_delta(
            displacement(a.velocity as int),
            sin_mdeg(a.heading as int),
            cos_mdeg(advance_latitude(a)),
        ),
    )
}

/// The whole effect of one tick on one aircraft: position advanced,
/// `last_update` stamped with the tick time, everything else kept.
pub open spec fn advance_spec(a: Aircraft, now: u64) -> Aircraft {
    Aircraft {
        icao24: a.icao24,
        callsign: a.callsign,
        latitude: advance_latitude(a) as i64,
        longitude: advance_longitude(a) as i64,
        altitude: a.altitude,
        velocity: a.velocity,
        heading: a.heading,
        last_update: now,
    }
}

/// Saturating conversion of a wide intermediate into the coordinate
/// range.
fn clamp_exec(x: i128) -> (r: i64)
    ensures
        r == clamp_coord(x as int),
{
    if x < COORD_MIN as i128 {
        COORD_MIN
    } else if x > COORD_MAX as i128 {
        COORD_MAX
    } else {
        x as i64
    }
}

/// Advances one aircraft by one tick ending at time `now`.
pub fn advance_aircraft(a: Aircraft, now: u64) -> (r: Aircraft)
    requires
        a.wf(),
    ensures
        r == advance_spec(a, now),
        r.wf(),
{
    let cos_h = trig::cos_angle(a.heading);
    let sin_h = trig::sin_angle(a.heading);
    let d: i64 = ((a.velocity as u64) / (SECONDS_PER_HOUR as u64)) as i64;

    let cos_h_mag: u128 = if cos_h >= 0 {
        cos_h as u128
    } else {
        (-cos_h) as u128
    };
    proof {
        lemma_mul_upper_bound(d as int, 0x7fff_ffff_ffff_ffff, cos_h_mag as int, 1_000_000);
    }
    let lat_mag: u128 = ((d as u128) * cos_h_mag) / (K_MICRO as u128);
    proof {
        lemma_div_nonincreasing((d as u128 * cos_h_mag) as int, K_MICRO as int);
    }
    let lat_delta_w: i128 = if cos_h >= 0 {
        lat_mag as i128
    } else {
        -(lat_mag as i128)
    };
    let new_lat: i64 = clamp_exec((a.latitude as i128) + lat_delta_w);

    let cos_lat = trig::cos_angle(new_lat);
    let sin_h_mag: u128 = if sin_h >= 0 {
        sin_h as u128
    } else {
        (-sin_h) as u128
    };
    let lon_delta_w: i128 = if cos_lat == 0 {
        0
    } else {
        let cos_lat_mag: u128 = if cos_lat >= 0 {
            cos_lat as u128
        } else {
            (-cos_lat) as u128
        };
        proof {
            lemma_mul_upper_bound(d as int, 0x7fff_ffff_ffff_ffff, sin_h_mag as int, 1_000_000);
            lemma_mul_upper_bound(
                (d as int) * (sin_h_mag as int),
                0x7fff_ffff_ffff_ffff as int * 1_000_000,
                1_000_000,
                1_000_000,
            );
        }
        let num: u128 = (d as u128) * sin_h_mag * 1_000_000;
        let den: u128 = (K_MICRO as u128) * cos_lat_mag;
        let lon_mag: u128 = num / den;
        proof {
            lemma_mul_strictly_positive(K_MICRO as int, cos_lat_mag as int);
            lemma_div_nonincreasing(num as int, den as int);
        }
        if (sin_h >= 0) == (cos_lat >= 0) {
            lon_mag as i128
        } else {
            -(lon_mag as i128)
        }
    };
    let new_lon: i64 = clamp_exec((a.longitude as i128) + lon_delta_w);

    Aircraft {
        icao24: a.icao24,
        callsign: a.callsign,
        latitude: new_lat,
        longitude: new_lon,
        altitude: a.altitude,
        velocity: a.velocity,
        heading: a.heading,
        last_update: now,
    }
}

/// One tick applied to a whole sequence of aircraft.
pub open spec fn tick_seq(s: Seq<Aircraft>, now: u64) -> Seq<Aircraft> {
    s.map_values(|a: Aircraft| advance_spec(a, now))
}

/// A run of ticks, one per entry of `times`, oldest first.
pub open spec fn run_ticks(s: Seq<Aircraft>, times: Seq<u64>) -> Seq<Aircraft>
    decreases times.len(),
{
    if times.len() == 0 {
        s
    } else {
        run_ticks(tick_seq(s, times[0]), times.subrange(1, times.len() as int))
    }
}

/// Law: after a run of ticks, every entity carries the time of the most
/// recent tick as its `last_update`, and the store keeps its length.
pub proof fn lemma_ticks_stamp_last_update(s: Seq<Aircraft>, times: Seq<u64>)
    requires
        times.len() > 0,
    ensures
        run_ticks(s, times).len() == s.len(),
        forall|i: int|
            0 <= i < s.len() ==> run_ticks(s, times)[i].last_update == times[times.len() - 1],
    decreases times.len(),
{
    let s2 = tick_seq(s, times[0]);
    let rest = times.subrange(1, times.len() as int);
    if times.len() == 1 {
        assert(run_ticks(s2, rest) == s2);
    } else {
        lemma_ticks_stamp_last_update(s2, rest);
        assert(rest[rest.len() - 1] == times[times.len() - 1]);
    }
}

/// Law: across a run of ticks at strictly increasing times, the
/// `last_update` of every entity strictly increases: after any later
/// tick it is strictly above its value after any earlier tick, and it
/// always equals the time of the most recent tick.
pub proof fn lemma_last_update_strictly_increases(
    s: Seq<Aircraft>,
    times: Seq<u64>,
    k1: int,
    k2: int,
    i: int,
)
    requires
        0 <= k1 < k2 < times.len(),
        0 <= i < s.len(),
        forall|p: int, q: int| 0 <= p < q < times.len() ==> times[p] < times[q],
    ensures
        run_ticks(s, times.subrange(0, k1 + 1))[i].last_update < run_ticks(
            s,
            times.subrange(0, k2 + 1),
        )[i].last_update,
{
    lemma_ticks_stamp_last_update(s, times.subrange(0, k1 + 1));
    lemma_ticks_stamp_last_update(s, times.subrange(0, k2 + 1));
    assert(times.subrange(0, k1 + 1)[k1] == times[k1]);
    assert(times.subrange(0, k2 + 1)[k2] == times[k2]);
}

/// Law: a tick is the identity on the position of an entity at rest.
/// With zero velocity the displacement is zero, so latitude and
/// longitude are unchanged, whatever the heading.
pub proof fn lemma_zero_velocity_keeps_position(a: Aircraft, now: u64)
    requires
        a.wf(),
        a.velocity == 0,
    ensures
        advance_spec(a, now).latitude == a.latitude,
        advance_spec(a, now).longitude == a.longitude,
{
    let d = displacement(0);
    assert(d == 0);
    let cos_h = cos_mdeg(a.heading as int);
    let sin_h = sin_mdeg(a.heading as int);
    assert(0 * abs(cos_h) == 0) by (nonlinear_arith);
    lemma_div_of0(K_MICRO as int);
    assert(lat_delta(0, cos_h) == 0);
    assert(advance_latitude(a) == a.latitude);
    let cos_lat = cos_mdeg(advance_latitude(a));
    if cos_lat != 0 {
        assert(0 * abs(sin_h) * 1_000_000 == 0) by (nonlinear_arith);
        assert((K_MICRO as int) * abs(cos_lat) != 0) by (nonlinear_arith)
            requires
                abs(cos_lat) > 0,
        ;
        lemma_div_of0((K_MICRO as int) * abs(cos_lat));
    }
    assert(lon_delta(0, sin_h, cos_lat) == 0);
    assert(advance_longitude(a) == a.longitude);
}

} // verus!
