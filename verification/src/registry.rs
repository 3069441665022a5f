//! The connection registry: the active-streaming-connection gauge.
//!
//! Every session increments the gauge once when it starts and
//! decrements it exactly once when it ends, whichever terminal path it
//! took.  The gauge is an unsigned count that saturates at zero, so it
//! can never go negative; and as long as every decrement is preceded
//! by its increment, saturation never happens and each decrement takes
//! off exactly one.

use vstd::prelude::*;

verus! {

/// The count of currently active streaming connections.
pub struct ConnectionGauge {
    /// How many sessions are active now.
    pub active: u64,
}

impl ConnectionGauge {
    /// A gauge with no connections yet.
    pub fn new() -> (r: ConnectionGauge)
        ensures
            r.active == 0,
    {
        ConnectionGauge { active: 0 }
    }

    /// Records a session start: the gauge rises by exactly one.
    pub fn connect(&mut self)
        requires
            old(self).active < u64::MAX,
        ensures
            final(self).active == old(self).active + 1,
    {
        self.active = self.active + 1;
    }

    /// Records a session end: the gauge falls by exactly one when any
    /// session is active, and stays at zero otherwise — it never goes
    /// negative, whatever the disconnect timing.
    pub fn disconnect(&mut self)
        ensures
            old(self).active > 0 ==> final(self).active == old(self).active - 1,
            old(self).active == 0 ==> final(self).active == 0,
    {
        if self.active > 0 {
            self.active = self.active - 1;
        }
    }
}

/// The total of entities served by the snapshot endpoints.  Each read
/// adds the number of entities it returned; the total saturates at the
/// machine limit rather than wrap.
pub struct ServedCounter {
    /// How many entities have been served so far.
    pub total: u64,
}

impl ServedCounter {
    /// A counter that has served nothing yet.
    pub fn new() -> (r: ServedCounter)
        ensures
            r.total == 0,
    {
        ServedCounter { total: 0 }
    }

    /// Records one snapshot response of `n` entities.
    pub fn record(&mut self, n: usize)
        ensures
            old(self).total + n <= u64::MAX ==> final(self).total == old(self).total + n,
            old(self).total + n > u64::MAX ==> final(self).total == u64::MAX,
    {
        if self.total <= u64::MAX - (n as u64) {
            self.total = self.total + (n as u64);
        } else {
            self.total = u64::MAX;
        }
    }
}

/// One gauge event: `true` for a session start, `false` for an end.
pub type GaugeEvent = bool;

/// The gauge value after a run of events, applying the saturating
/// decrement of `disconnect`.
pub open spec fn gauge_run(events: Seq<GaugeEvent>) -> int
    decreases events.len(),
{
    if events.len() == 0 {
        0
    } else {
        let prev = gauge_run(events.drop_last());
        if events.last() {
            prev + 1
        } else if prev > 0 {
            prev - 1
        } else {
            0
        }
    }
}

/// How many events of a run are session starts.
pub open spec fn count_connects(events: Seq<GaugeEvent>) -> int
    decreases events.len(),
{
    if events.len() == 0 {
        0
    } else {
        count_connects(events.drop_last()) + if events.last() {
            1int
        } else {
            0int
        }
    }
}

/// How many events of a run are session ends.
pub open spec fn count_disconnects(events: Seq<GaugeEvent>) -> int
    decreases events.len(),
{
    if events.len() == 0 {
        0
    } else {
        count_disconnects(events.drop_last()) + if events.last() {
            0int
        } else {
            1int
        }
    }
}

/// Law: over any run in which no session ends before it started — in
/// every prefix the ends do not outnumber the starts — the gauge is
/// exactly the starts minus the ends, hence never negative, and every
/// end lowers it by exactly one, whatever the disconnect timing.
pub proof fn lemma_gauge_matches_run(events: Seq<GaugeEvent>)
    requires
        forall|k: int|
            0 <= k <= events.len() ==> count_disconnects(#[trigger] events.subrange(0, k))
                <= count_connects(events.subrange(0, k)),
    ensures
        gauge_run(events) == count_connects(events) - count_disconnects(events),
        gauge_run(events) >= 0,
    decreases events.len(),
{
    if events.len() == 0 {
    } else {
        let prefix = events.drop_last();
        assert(prefix == events.subrange(0, events.len() - 1));
        assert forall|k: int| 0 <= k <= prefix.len() implies count_disconnects(
            #[trigger] prefix.subrange(0, k),
        ) <= count_connects(prefix.subrange(0, k)) by {
            assert(prefix.subrange(0, k) == events.subrange(0, k));
        }
        lemma_gauge_matches_run(prefix);
        assert(events.subrange(0, events.len() as int) == events);
    }
}

} // verus!
