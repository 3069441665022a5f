use telemetry_core::gen::{generate_aircraft, generate_satellites};
use telemetry_core::store::{
    aircraft_snapshot, satellite_snapshot, health_status, EntityStore, SatelliteStore,
};

#[test]
fn aircraft_fields_follow_the_formulas() {
    let fleet = generate_aircraft(77);
    assert_eq!(fleet.len(), 100);
    for (i, a) in fleet.iter().enumerate() {
        assert_eq!(a.icao24, format!("{:06x}", (i as u64) * 1234567));
        let airlines = ["UAL", "AAL", "DAL", "BAW", "DLH", "AFR", "KLM", "JAL", "ANA"];
        assert_eq!(
            a.callsign.as_deref(),
            Some(format!("{}{}", airlines[i % 9], 100 + i).as_str())
        );
        assert_eq!(a.latitude, ((i as i64 % 18) - 9) * 10_000_000);
        assert_eq!(a.longitude, ((i as i64 % 36) - 18) * 10_000_000);
        assert_eq!(a.altitude, 1_000_000_000 + (i as i64) * 100_000_000);
        assert_eq!(a.velocity, (200 + (i as i64 % 50) * 10) * 1_000_000);
        assert_eq!(a.heading, (i as i64) * 4_000_000);
        assert_eq!(a.last_update, 77);
    }
}

#[test]
fn first_aircraft_is_the_zero_slot() {
    let fleet = generate_aircraft(1);
    assert_eq!(fleet[0].icao24, "000000");
    assert_eq!(fleet[0].callsign.as_deref(), Some("UAL100"));
    assert_eq!(fleet[0].latitude, -90_000_000);
    assert_eq!(fleet[0].longitude, -180_000_000);
    assert_eq!(fleet[0].velocity, 200_000_000);
    assert_eq!(fleet[0].heading, 0);
    assert_eq!(fleet[1].icao24, "12d687");
    assert_eq!(fleet[1].callsign.as_deref(), Some("AAL101"));
}

#[test]
fn satellite_fields_follow_the_formulas() {
    let sats = generate_satellites();
    assert_eq!(sats.len(), 8);
    let names = [
        "ISS (ZARYA)",
        "HST",
        "STARLINK-1007",
        "STARLINK-1008",
        "STARLINK-1009",
        "STARLINK-1010",
        "SES-7",
        "GPS-IIR-M",
    ];
    for (k, s) in sats.iter().enumerate() {
        assert_eq!(s.norad_id, 25544 + k as u32);
        assert_eq!(s.name, names[k]);
        assert_eq!(s.latitude, (k as i64 % 9) * 20_000_000 - 90_000_000);
        assert_eq!(s.longitude, ((k as i64 % 18) - 9) * 20_000_000);
        assert_eq!(s.altitude, 400_000_000 + (k as i64) * 1_000_000_000);
        assert_eq!(s.velocity, 7_660_000);
    }
}

#[test]
fn snapshots_carry_count_and_time() {
    let store = EntityStore::new(generate_aircraft(5));
    let snap = aircraft_snapshot(&store, 42);
    assert_eq!(snap.count, 100);
    assert_eq!(snap.data.len(), 100);
    assert_eq!(snap.time, 42);

    let sats = SatelliteStore::new(generate_satellites());
    let ssnap = satellite_snapshot(&sats, 43);
    assert_eq!(ssnap.count, 8);
    assert_eq!(ssnap.data.len(), 8);
    assert_eq!(ssnap.time, 43);
}

#[test]
fn health_report_is_fixed_shape() {
    let h = health_status(String::from("2026-01-01T00:00:00Z"), 42);
    assert_eq!(h.status, "healthy");
    assert_eq!(h.version, "2.0.0");
    assert_eq!(h.timestamp, "2026-01-01T00:00:00Z");
    assert_eq!(h.uptime_seconds, 42);
}
