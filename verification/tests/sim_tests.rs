use telemetry_core::entity::Aircraft;
use telemetry_core::sim::advance_aircraft;
use telemetry_core::store::EntityStore;
use telemetry_core::trig::{cos_angle, sin_angle};

fn plane(lat: i64, lon: i64, velocity: i64, heading: i64) -> Aircraft {
    Aircraft {
        icao24: String::from("abc123"),
        callsign: Some(String::from("UAL100")),
        latitude: lat,
        longitude: lon,
        altitude: 1_000_000_000,
        velocity,
        heading,
        last_update: 1,
    }
}

#[test]
fn sine_exact_at_cardinal_angles() {
    assert_eq!(sin_angle(0), 0);
    assert_eq!(sin_angle(90_000_000), 1_000_000);
    assert_eq!(sin_angle(180_000_000), 0);
    assert_eq!(sin_angle(270_000_000), -1_000_000);
    assert_eq!(sin_angle(30_000_000), 500_000);
}

#[test]
fn cosine_exact_at_cardinal_angles() {
    assert_eq!(cos_angle(0), 1_000_000);
    assert_eq!(cos_angle(90_000_000), 0);
    assert_eq!(cos_angle(180_000_000), -1_000_000);
    assert_eq!(cos_angle(270_000_000), 0);
    assert_eq!(cos_angle(360_000_000), 1_000_000);
}

#[test]
fn trig_of_negative_angles_wraps() {
    assert_eq!(cos_angle(-90_000_000), 0);
    assert_eq!(sin_angle(-90_000_000), -1_000_000);
    assert_eq!(cos_angle(-360_000_000), 1_000_000);
}

#[test]
fn eastbound_tick_moves_longitude_only() {
    // heading 90 degrees, velocity 360 units/hour: displacement is
    // 0.1 units, the latitude keeps cos(90) = 0, and the longitude
    // grows by 0.1 / (111.32 * cos(0)) ~ 0.000898 degrees.
    let a = plane(0, 0, 360_000_000, 90_000_000);
    let b = advance_aircraft(a, 5);
    assert_eq!(b.latitude, 0);
    assert_eq!(b.longitude, 898);
    assert_eq!(b.last_update, 5);
    assert_eq!(b.velocity, 360_000_000);
    assert_eq!(b.heading, 90_000_000);
    assert_eq!(b.icao24, "abc123");
}

#[test]
fn northbound_tick_moves_latitude_only() {
    let a = plane(0, 0, 360_000_000, 0);
    let b = advance_aircraft(a, 5);
    assert_eq!(b.latitude, 898);
    assert_eq!(b.longitude, 0);
}

#[test]
fn zero_velocity_tick_keeps_position() {
    let a = plane(45_000_000, -122_000_000, 0, 123_456_789);
    let b = advance_aircraft(a, 99);
    assert_eq!(b.latitude, 45_000_000);
    assert_eq!(b.longitude, -122_000_000);
    assert_eq!(b.last_update, 99);
}

#[test]
fn pole_crossing_freezes_longitude() {
    // At latitude 90 the longitude denominator's cosine is exactly
    // zero; the tick leaves the longitude where it was.
    let a = plane(90_000_000, 10_000_000, 360_000_000, 90_000_000);
    let b = advance_aircraft(a, 7);
    assert_eq!(b.latitude, 90_000_000);
    assert_eq!(b.longitude, 10_000_000);
}

#[test]
fn ticks_stamp_strictly_increasing_times() {
    let mut store = EntityStore::new(telemetry_core::gen::generate_aircraft(10));
    store.tick_all(11);
    let first = store.read();
    store.tick_all(12);
    let second = store.read();
    assert_eq!(first.len(), 100);
    assert_eq!(second.len(), 100);
    for (a, b) in first.iter().zip(second.iter()) {
        assert_eq!(a.last_update, 11);
        assert_eq!(b.last_update, 12);
        assert!(b.last_update > a.last_update);
    }
}

#[test]
fn tick_keeps_length_and_identity_fields() {
    let mut store = EntityStore::new(telemetry_core::gen::generate_aircraft(10));
    let before = store.read();
    store.tick_all(20);
    let after = store.read();
    assert_eq!(before.len(), after.len());
    for (a, b) in before.iter().zip(after.iter()) {
        assert_eq!(a.icao24, b.icao24);
        assert_eq!(a.callsign, b.callsign);
        assert_eq!(a.altitude, b.altitude);
        assert_eq!(a.velocity, b.velocity);
        assert_eq!(a.heading, b.heading);
    }
}

#[test]
fn tick_advances_every_entity_whole() {
    // Each entity of the post-tick store is exactly the one-tick image
    // of its pre-tick self: no entity ever mixes old and new fields.
    let mut store = EntityStore::new(telemetry_core::gen::generate_aircraft(10));
    let before = store.read();
    store.tick_all(30);
    let after = store.read();
    for (a, b) in before.iter().zip(after.iter()) {
        let image = advance_aircraft(
            Aircraft {
                icao24: a.icao24.clone(),
                callsign: a.callsign.clone(),
                latitude: a.latitude,
                longitude: a.longitude,
                altitude: a.altitude,
                velocity: a.velocity,
                heading: a.heading,
                last_update: a.last_update,
            },
            30,
        );
        assert_eq!(b.latitude, image.latitude);
        assert_eq!(b.longitude, image.longitude);
        assert_eq!(b.last_update, image.last_update);
        assert_eq!(b.altitude, image.altitude);
        assert_eq!(b.velocity, image.velocity);
        assert_eq!(b.heading, image.heading);
    }
}

#[test]
fn empty_store_ticks_and_reads() {
    let mut store = EntityStore::new(Vec::new());
    assert_eq!(store.count(), 0);
    store.tick_all(5);
    assert_eq!(store.read().len(), 0);
}

#[test]
fn read_returns_equal_copy() {
    let store = EntityStore::new(telemetry_core::gen::generate_aircraft(3));
    let copy = store.read();
    assert_eq!(copy.len(), store.count());
    let copy2 = store.read();
    for (a, b) in copy.iter().zip(copy2.iter()) {
        assert_eq!(a.icao24, b.icao24);
        assert_eq!(a.latitude, b.latitude);
        assert_eq!(a.longitude, b.longitude);
        assert_eq!(a.last_update, b.last_update);
    }
}
