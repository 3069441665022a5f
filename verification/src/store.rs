//! The entity stores and their read paths.
//!
//! One store per category holds the current entities; a single writer
//! advances the aircraft store once per tick, and readers take
//! field-for-field copies.  Because a mutation takes the store by
//! exclusive reference and stamps every entity in the same call, a
//! reader's copy always shows one tick in full: the same length, and
//! on every entity either all pre-tick or all post-tick fields.

use vstd::prelude::*;
use vstd::string::StringExecFns;
use crate::entity::{Aircraft, Satellite};
use crate::sim::{advance_aircraft, advance_spec};

verus! {

/// The aircraft store: current positions, single writer, many readers.
pub struct EntityStore {
    /// The entities, keyed by index.
    pub entities: Vec<Aircraft>,
}

impl EntityStore {
    /// Every held aircraft obeys the entity bounds.
    pub open spec fn wf(self) -> bool {
        forall|i: int| 0 <= i < self.entities@.len() ==> self.entities@[i].wf()
    }

    /// Wraps freshly generated entities into a store.
    pub fn new(entities: Vec<Aircraft>) -> (r: EntityStore)
        ensures
            r.entities@ == entities@,
    {
        EntityStore { entities }
    }

    /// The number of entities held.
    pub fn count(&self) -> (r: usize)
        ensures
            r == self.entities@.len(),
    {
        self.entities.len()
    }

    /// Decides `wf` at run time, for callers outside the proof.
    pub fn check_bounds(&self) -> (r: bool)
        ensures
            r == self.wf(),
    {
        let n = self.entities.len();
        let mut i: usize = 0;
        while i < n
            invariant
                n == self.entities@.len(),
                i <= n,
                forall|j: int| 0 <= j < i as int ==> self.entities@[j].wf(),
            decreases n - i,
        {
            if !self.entities[i].check_bounds() {
                return false;
            }
            i = i + 1;
        }
        true
    }

    /// An immutable copy of all entities: the consistent snapshot that
    /// polling readers and new stream sessions receive.
    pub fn read(&self) -> (r: Vec<Aircraft>)
        ensures
            r@ == self.entities@,
    {
        let mut out: Vec<Aircraft> = Vec::new();
        let n = self.entities.len();
        let mut i: usize = 0;
        while i < n
            invariant
                n == self.entities@.len(),
                i <= n,
                out@.len() == i as int,
                forall|j: int| 0 <= j < i as int ==> out@[j] == self.entities@[j],
            decreases n - i,
        {
            out.push(self.entities[i].duplicate());
            i = i + 1;
        }
        proof {
            assert(out@ =~= self.entities@);
        }
        out
    }

    /// One simulation tick ending at time `now`: every entity is
    /// advanced by the dead-reckoning step and stamped with `now`,
    /// atomically with respect to any reader, which holds either the
    /// store before this call or after it, never a mixture.
    pub fn tick_all(&mut self, now: u64)
        requires
            old(self).wf(),
        ensures
            final(self).entities@.len() == old(self).entities@.len(),
            forall|i: int|
                0 <= i < old(self).entities@.len() ==> final(self).entities@[i] == advance_spec(
                    old(self).entities@[i],
                    now,
                ),
            final(self).wf(),
    {
        let n = self.entities.len();
        let mut out: Vec<Aircraft> = Vec::new();
        let mut i: usize = 0;
        while i < n
            invariant
                self.entities@ == old(self).entities@,
                old(self).wf(),
                n == self.entities@.len(),
                i <= n,
                out@.len() == i as int,
                forall|j: int|
                    0 <= j < i as int ==> out@[j] == advance_spec(old(self).entities@[j], now),
                forall|j: int| 0 <= j < i as int ==> out@[j].wf(),
            decreases n - i,
        {
            let a = self.entities[i].duplicate();
            out.push(advance_aircraft(a, now));
            i = i + 1;
        }
        self.entities = out;
    }
}

/// The satellite store: read-only after startup.
pub struct SatelliteStore {
    /// The entities, keyed by index.
    pub entities: Vec<Satellite>,
}

impl SatelliteStore {
    /// Wraps freshly generated entities into a store.
    pub fn new(entities: Vec<Satellite>) -> (r: SatelliteStore)
        ensures
            r.entities@ == entities@,
    {
        SatelliteStore { entities }
    }

    /// The number of entities held.
    pub fn count(&self) -> (r: usize)
        ensures
            r == self.entities@.len(),
    {
        self.entities.len()
    }

    /// An immutable copy of all entities.
    pub fn read(&self) -> (r: Vec<Satellite>)
        ensures
            r@ == self.entities@,
    {
        let mut out: Vec<Satellite> = Vec::new();
        let n = self.entities.len();
        let mut i: usize = 0;
        while i < n
            invariant
                n == self.entities@.len(),
                i <= n,
                out@.len() == i as int,
                forall|j: int| 0 <= j < i as int ==> out@[j] == self.entities@[j],
            decreases n - i,
        {
            out.push(self.entities[i].duplicate());
            i = i + 1;
        }
        proof {
            assert(out@ =~= self.entities@);
        }
        out
    }
}

/// What a polling reader of the aircraft store receives: the data, its
/// count, and the server time of the read.
pub struct AircraftSnapshot {
    /// The copied entities.
    pub data: Vec<Aircraft>,
    /// How many entities the copy holds.
    pub count: usize,
    /// Server time of the read, seconds since the epoch.
    pub time: u64,
}

/// Serves a consistent point-in-time copy of the aircraft store.  The
/// `count` also tells the caller by how much to advance the
/// entities-served observability counter.
pub fn aircraft_snapshot(store: &EntityStore, now: u64) -> (r: AircraftSnapshot)
    ensures
        r.data@ == store.entities@,
        r.count == store.entities@.len(),
        r.time == now,
{
    let data = store.read();
    let count = data.len();
    AircraftSnapshot { data, count, time: now }
}

/// What a polling reader of the satellite store receives.
pub struct SatelliteSnapshot {
    /// The copied entities.
    pub data: Vec<Satellite>,
    /// How many entities the copy holds.
    pub count: usize,
    /// Server time of the read, seconds since the epoch.
    pub time: u64,
}

/// Serves a consistent point-in-time copy of the satellite store.
pub fn satellite_snapshot(store: &SatelliteStore, now: u64) -> (r: SatelliteSnapshot)
    ensures
        r.data@ == store.entities@,
        r.count == store.entities@.len(),
        r.time == now,
{
    let data = store.read();
    let count = data.len();
    SatelliteSnapshot { data, count, time: now }
}

/// The liveness report of the service.
pub struct HealthStatus {
    /// Always "healthy" while the process serves.
    pub status: String,
    /// The wall-clock time of the report, already formatted.
    pub timestamp: String,
    /// The service version.
    pub version: String,
    /// Seconds since the process started.
    pub uptime_seconds: u64,
}

/// Builds the liveness report from the formatted wall-clock time and
/// the process uptime.
pub fn health_status(timestamp: String, uptime_seconds: u64) -> (r: HealthStatus)
    ensures
        r.status@ == "healthy"@,
        r.version@ == "2.0.0"@,
        r.timestamp == timestamp,
        r.uptime_seconds == uptime_seconds,
{
    HealthStatus {
        status: String::from_str("healthy"),
        timestamp,
        version: String::from_str("2.0.0"),
        uptime_seconds,
    }
}

} // verus!
