//! The stream session: one per connected client.
//!
//! A session moves through `Connecting -> Active -> Closed`.  On
//! upgrade it sends exactly one `Init` message carrying a full copy of
//! the store; while active it answers each well-formed inbound text
//! with exactly one `Echo` carrying that text back, silently drops
//! malformed text, and ends on a close frame or a transport error.
//! `Closed` is terminal: no further message is produced.

use vstd::prelude::*;
use crate::entity::Aircraft;

verus! {

/// The tag of a stream message.
pub enum MessageKind {
    /// The one full snapshot sent when a session becomes active.
    Init,
    /// A mirrored client payload.
    Echo,
}

/// What a stream message carries.
pub enum MessagePayload {
    /// A full copy of the store, sent with `Init`.
    Entities(Vec<Aircraft>),
    /// A well-formed JSON text mirrored back to the client.
    Json(String),
}

impl MessagePayload {
    /// How many entities the payload carries.
    pub open spec fn entity_count(self) -> int {
        match self {
            MessagePayload::Entities(v) => v@.len() as int,
            MessagePayload::Json(_) => 0,
        }
    }
}

/// The envelope of every frame a session sends: a tag, a payload, and
/// the send time in seconds since the epoch.  It is built whole; no
/// half-constructed message exists.
pub struct StreamMessage {
    /// The message tag.
    pub kind: MessageKind,
    /// The carried data.
    pub payload: MessagePayload,
    /// Send time, seconds since the epoch.
    pub timestamp: u64,
}

/// Whether a text is well-formed JSON, as `serde_json` parses it.
/// Whether a given text parses depends on the text alone.
pub uninterp spec fn json_well_formed(s: Seq<char>) -> bool;

/// Relies on `serde_json::from_str::<Value>`: it returns `Ok` exactly
/// on well-formed JSON text, and its verdict is a function of the text
/// alone.
#[verifier::external_body]
fn json_is_well_formed(text: &str) -> (r: bool)
    ensures
        r == json_well_formed(text@),
{
    serde_json::from_str::<serde_json::Value>(text).is_ok()
}

/// Where a session stands in its lifecycle.
pub enum SessionPhase {
    /// Upgraded, init not sent yet.
    Connecting,
    /// Init sent; the relay loop runs.
    Active,
    /// Terminal: nothing more is sent or received.
    Closed,
}

/// What the transport hands the session while it is active.
pub enum SessionEvent {
    /// An inbound text frame.
    Text(String),
    /// An explicit close frame from the client.
    CloseFrame,
    /// A transport-level read error.
    TransportError,
    /// Any other frame kind; ignored.
    Other,
}

impl SessionEvent {
    /// A field-for-field copy.
    pub fn duplicate(&self) -> (r: SessionEvent)
        ensures
            r == *self,
    {
        match self {
            SessionEvent::Text(t) => SessionEvent::Text(t.clone()),
            SessionEvent::CloseFrame => SessionEvent::CloseFrame,
            SessionEvent::TransportError => SessionEvent::TransportError,
            SessionEvent::Other => SessionEvent::Other,
        }
    }
}

/// What the session asks the transport to do in return.
pub enum SessionStep {
    /// Write this message to the client.
    Reply(StreamMessage),
    /// Do nothing and keep listening.
    Silent,
    /// The session is over; release the transport.
    Ended,
}

/// One streaming connection's lifecycle state.
pub struct Session {
    /// Where the session stands.
    pub phase: SessionPhase,
    /// How many `Init` messages this session has produced.
    pub inits_sent: u64,
    /// How many `Echo` messages this session has produced.
    pub echoes_sent: u64,
    /// The timestamp the `Init` message carried; 0 until it is sent.
    pub init_timestamp: u64,
}

impl Session {
    /// The lifecycle invariant: at most one init, none before
    /// activation, and never an echo before the init.
    pub open spec fn inv(self) -> bool {
        &&& self.inits_sent <= 1
        &&& (self.phase is Active ==> self.inits_sent == 1)
        &&& (self.echoes_sent > 0 ==> self.inits_sent == 1)
        &&& (self.phase is Connecting ==> self.inits_sent == 0 && self.echoes_sent == 0)
    }

    /// A fresh session, before its init message.
    pub fn begin() -> (r: Session)
        ensures
            r.phase is Connecting,
            r.inits_sent == 0,
            r.echoes_sent == 0,
            r.inv(),
    {
        Session { phase: SessionPhase::Connecting, inits_sent: 0, echoes_sent: 0, init_timestamp: 0 }
    }

    /// Moves `Connecting -> Active` and yields the one `Init` message,
    /// carrying the full snapshot it was given: its entity count is
    /// the store count at the time of the read.
    pub fn activate(&mut self, snapshot: Vec<Aircraft>, now: u64) -> (msg: StreamMessage)
        requires
            old(self).phase is Connecting,
            old(self).inv(),
        ensures
            final(self).phase is Active,
            final(self).inits_sent == 1,
            final(self).echoes_sent == 0,
            final(self).init_timestamp == now,
            final(self).inv(),
            msg.kind is Init,
            msg.payload == MessagePayload::Entities(snapshot),
            msg.payload.entity_count() == snapshot@.len(),
            msg.timestamp == now,
    {
        self.phase = SessionPhase::Active;
        self.inits_sent = 1;
        self.init_timestamp = now;
        StreamMessage {
            kind: MessageKind::Init,
            payload: MessagePayload::Entities(snapshot),
            timestamp: now,
        }
    }

    /// Moves `Connecting -> Closed` without sending anything: the path
    /// taken when the init snapshot cannot be written out.  No partial
    /// data is ever sent.
    pub fn abort_init(&mut self)
        requires
            old(self).phase is Connecting,
            old(self).inv(),
        ensures
            final(self).phase is Closed,
            final(self).inits_sent == 0,
            final(self).echoes_sent == 0,
            final(self).inv(),
    {
        self.phase = SessionPhase::Closed;
    }

    /// One turn of the active relay loop.  A well-formed inbound text
    /// yields exactly one `Echo` mirroring that text, stamped `now`;
    /// malformed text is silently dropped and the session continues; a
    /// close frame or a transport error ends the session.
    pub fn on_event(&mut self, event: SessionEvent, now: u64) -> (r: SessionStep)
        requires
            old(self).phase is Active,
            old(self).inv(),
            old(self).echoes_sent < u64::MAX,
        ensures
            final(self).inv(),
            final(self).inits_sent == old(self).inits_sent,
            final(self).init_timestamp == old(self).init_timestamp,
            match event {
                SessionEvent::Text(t) => {
                    &&& final(self).phase is Active
                    &&& (json_well_formed(t@) ==> (r matches SessionStep::Reply(m) && (m.kind
                        is Echo) && m.payload == MessagePayload::Json(t) && m.timestamp == now))
                    &&& (!json_well_formed(t@) ==> r is Silent)
                    &&& final(self).echoes_sent == old(self).echoes_sent + (
                    if json_well_formed(t@) {
                        1int
                    } else {
                        0int
                    })
                },
                SessionEvent::CloseFrame => {
                    &&& final(self).phase is Closed
                    &&& r is Ended
                    &&& final(self).echoes_sent == old(self).echoes_sent
                },
                SessionEvent::TransportError => {
                    &&& final(self).phase is Closed
                    &&& r is Ended
                    &&& final(self).echoes_sent == old(self).echoes_sent
                },
                SessionEvent::Other => {
                    &&& final(self).phase is Active
                    &&& r is Silent
                    &&& final(self).echoes_sent == old(self).echoes_sent
                },
            },
    {
        match event {
            SessionEvent::Text(t) => {
                if json_is_well_formed(t.as_str()) {
                    self.echoes_sent = self.echoes_sent + 1;
                    SessionStep::Reply(
                        StreamMessage {
                            kind: MessageKind::Echo,
                            payload: MessagePayload::Json(t),
                            timestamp: now,
                        },
                    )
                } else {
                    SessionStep::Silent
                }
            },
            SessionEvent::CloseFrame => {
                self.phase = SessionPhase::Closed;
                SessionStep::Ended
            },
            SessionEvent::TransportError => {
                self.phase = SessionPhase::Closed;
                SessionStep::Ended
            },
            SessionEvent::Other => SessionStep::Silent,
        }
    }
}

/// Law: a session never produces an echo before its one init: whenever
/// any echo has been sent, exactly one init was sent first.
pub proof fn lemma_init_before_echo(s: Session)
    requires
        s.inv(),
        s.echoes_sent > 0,
    ensures
        s.inits_sent == 1,
{
}

/// The tags of the messages a session's relay loop emits for a run of
/// events: one `Echo` per well-formed text, nothing for malformed text
/// or ignored frames, and nothing at or after the first close frame or
/// transport error.
pub open spec fn echo_kinds(events: Seq<SessionEvent>) -> Seq<MessageKind>
    decreases events.len(),
{
    if events.len() == 0 {
        Seq::empty()
    } else {
        let rest = events.subrange(1, events.len() as int);
        match events[0] {
            SessionEvent::Text(t) => if json_well_formed(t@) {
                seq![MessageKind::Echo] + echo_kinds(rest)
            } else {
                echo_kinds(rest)
            },
            SessionEvent::CloseFrame => Seq::empty(),
            SessionEvent::TransportError => Seq::empty(),
            SessionEvent::Other => echo_kinds(rest),
        }
    }
}

/// The tags of every message a whole session life emits: the one init
/// at activation, then the relay loop's echoes.
pub open spec fn session_kinds(events: Seq<SessionEvent>) -> Seq<MessageKind> {
    seq![MessageKind::Init] + echo_kinds(events)
}

/// The tags of a message sequence.
pub open spec fn kinds_of(msgs: Seq<StreamMessage>) -> Seq<MessageKind> {
    msgs.map_values(|m: StreamMessage| m.kind)
}

/// The texts the relay loop mirrors back for a run of events: the
/// well-formed texts in arrival order, cut off at the first close
/// frame or transport error.
pub open spec fn echo_texts(events: Seq<SessionEvent>) -> Seq<Seq<char>>
    decreases events.len(),
{
    if events.len() == 0 {
        Seq::empty()
    } else {
        let rest = events.subrange(1, events.len() as int);
        match events[0] {
            SessionEvent::Text(t) => if json_well_formed(t@) {
                seq![t@] + echo_texts(rest)
            } else {
                echo_texts(rest)
            },
            SessionEvent::CloseFrame => Seq::empty(),
            SessionEvent::TransportError => Seq::empty(),
            SessionEvent::Other => echo_texts(rest),
        }
    }
}

/// The mirrored text a message carries; empty for an init.
pub open spec fn payload_text(m: StreamMessage) -> Seq<char> {
    match m.payload {
        MessagePayload::Json(s) => s@,
        MessagePayload::Entities(_) => Seq::empty(),
    }
}

/// The mirrored texts of a message sequence, skipping its init.
pub open spec fn texts_of(msgs: Seq<StreamMessage>) -> Seq<Seq<char>> {
    msgs.subrange(1, msgs.len() as int).map_values(|m: StreamMessage| payload_text(m))
}

proof fn lemma_echo_kinds_all_echo(events: Seq<SessionEvent>)
    ensures
        forall|i: int| 0 <= i < echo_kinds(events).len() ==> echo_kinds(events)[i] is Echo,
    decreases events.len(),
{
    if events.len() > 0 {
        lemma_echo_kinds_all_echo(events.subrange(1, events.len() as int));
    }
}

/// Law: over any whole session life, whatever the client sends, the
/// first message is the one `Init` and every later message is an
/// `Echo`: exactly one init precedes all echoes.
pub proof fn lemma_exactly_one_init_first(events: Seq<SessionEvent>)
    ensures
        session_kinds(events).len() >= 1,
        session_kinds(events)[0] is Init,
        forall|i: int| 1 <= i < session_kinds(events).len() ==> session_kinds(events)[i] is Echo,
{
    lemma_echo_kinds_all_echo(events);
}

/// Runs a whole session life in memory: activation with `snapshot` at
/// time `now`, then one relay turn per event.  The returned messages
/// are exactly those the session asked the transport to write, in
/// order: the tags follow `session_kinds`, so the one init comes
/// first and carries the full snapshot.
pub fn run_session(snapshot: Vec<Aircraft>, events: &Vec<SessionEvent>, now: u64) -> (msgs: Vec<
    StreamMessage,
>)
    ensures
        kinds_of(msgs@) == session_kinds(events@),
        texts_of(msgs@) == echo_texts(events@),
        msgs@.len() >= 1,
        msgs@[0].kind is Init,
        msgs@[0].payload.entity_count() == snapshot@.len(),
        msgs@[0].timestamp == now,
        forall|k: int| 1 <= k < msgs@.len() ==> (#[trigger] msgs@[k]).payload is Json,
        forall|k: int| 1 <= k < msgs@.len() ==> (#[trigger] msgs@[k]).timestamp == now,
{
    let ghost snap_len = snapshot@.len();
    let mut session = Session::begin();
    let mut msgs: Vec<StreamMessage> = Vec::new();
    let init = session.activate(snapshot, now);
    msgs.push(init);
    proof {
        assert(kinds_of(msgs@) =~= seq![MessageKind::Init]);
        assert(texts_of(msgs@) =~= Seq::<Seq<char>>::empty());
        assert(events@.skip(0) =~= events@);
    }
    let n = events.len();
    let mut i: usize = 0;
    while i < n
        invariant
            n == events@.len(),
            i <= n,
            session.inv(),
            session.echoes_sent <= i as int,
            !(session.phase is Connecting),
            msgs@.len() >= 1,
            msgs@[0].kind is Init,
            msgs@[0].payload.entity_count() == snap_len,
            msgs@[0].timestamp == now,
            forall|k: int| 1 <= k < msgs@.len() ==> (#[trigger] msgs@[k]).payload is Json,
            forall|k: int| 1 <= k < msgs@.len() ==> (#[trigger] msgs@[k]).timestamp == now,
            session.phase is Active ==> kinds_of(msgs@) + echo_kinds(events@.skip(i as int))
                == session_kinds(events@),
            session.phase is Active ==> texts_of(msgs@) + echo_texts(events@.skip(i as int))
                == echo_texts(events@),
            session.phase is Closed ==> kinds_of(msgs@) == session_kinds(events@),
            session.phase is Closed ==> texts_of(msgs@) == echo_texts(events@),
        decreases n - i,
    {
        let is_active = match &session.phase {
            SessionPhase::Active => true,
            _ => false,
        };
        if is_active {
            proof {
                let tail = events@.skip(i as int);
                assert(tail[0] == events@[i as int]);
                assert(tail.subrange(1, tail.len() as int) =~= events@.skip(i as int + 1));
            }
            let e = events[i].duplicate();
            let step = session.on_event(e, now);
            match step {
                SessionStep::Reply(m) => {
                    msgs.push(m);
                    proof {
                        assert(kinds_of(msgs@) =~= kinds_of(msgs@.drop_last()) + seq![
                            MessageKind::Echo,
                        ]);
                        assert(kinds_of(msgs@) + echo_kinds(events@.skip(i as int + 1))
                            =~= session_kinds(events@));
                        assert(texts_of(msgs@) =~= texts_of(msgs@.drop_last()) + seq![
                            payload_text(msgs@.last()),
                        ]);
                        assert(texts_of(msgs@) + echo_texts(events@.skip(i as int + 1))
                            =~= echo_texts(events@));
                    }
                },
                SessionStep::Silent => {
                    proof {
                        assert(echo_kinds(events@.skip(i as int)) == echo_kinds(
                            events@.skip(i as int + 1),
                        ));
                        assert(echo_texts(events@.skip(i as int)) == echo_texts(
                            events@.skip(i as int + 1),
                        ));
                    }
                },
                SessionStep::Ended => {
                    proof {
                        assert(echo_kinds(events@.skip(i as int)) =~= Seq::<MessageKind>::empty());
                        assert(kinds_of(msgs@) + echo_kinds(events@.skip(i as int)) =~= kinds_of(
                            msgs@,
                        ));
                        assert(echo_texts(events@.skip(i as int)) =~= Seq::<Seq<char>>::empty());
                        assert(texts_of(msgs@) + echo_texts(events@.skip(i as int)) =~= texts_of(
                            msgs@,
                        ));
                    }
                },
            }
        }
        i = i + 1;
    }
    proof {
        if session.phase is Active {
            assert(echo_kinds(events@.skip(n as int)) =~= Seq::<MessageKind>::empty());
            assert(kinds_of(msgs@) + echo_kinds(events@.skip(n as int)) =~= kinds_of(msgs@));
            assert(echo_texts(events@.skip(n as int)) =~= Seq::<Seq<char>>::empty());
            assert(texts_of(msgs@) + echo_texts(events@.skip(n as int)) =~= texts_of(msgs@));
        }
    }
    msgs
}

} // verus!
