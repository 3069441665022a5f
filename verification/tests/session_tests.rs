use telemetry_core::gen::generate_aircraft;
use telemetry_core::registry::{ConnectionGauge, ServedCounter};
use telemetry_core::session::{
    MessageKind, MessagePayload, Session, SessionEvent, SessionPhase, SessionStep,
};
use telemetry_core::current_timestamp;

#[test]
fn connection_sends_exactly_one_init_first() {
    let mut s = Session::begin();
    assert!(matches!(s.phase, SessionPhase::Connecting));
    let snapshot = generate_aircraft(50);
    let msg = s.activate(snapshot, 50);
    assert!(matches!(msg.kind, MessageKind::Init));
    match &msg.payload {
        MessagePayload::Entities(v) => assert_eq!(v.len(), 100),
        MessagePayload::Json(_) => panic!("init must carry the snapshot"),
    }
    assert_eq!(msg.timestamp, 50);
    assert!(matches!(s.phase, SessionPhase::Active));
    assert_eq!(s.inits_sent, 1);
    assert_eq!(s.echoes_sent, 0);
}

#[test]
fn well_formed_text_yields_exactly_one_echo() {
    let mut s = Session::begin();
    let _ = s.activate(generate_aircraft(50), 50);
    let step = s.on_event(SessionEvent::Text(String::from("{\"foo\": 1}")), 60);
    match step {
        SessionStep::Reply(m) => {
            assert!(matches!(m.kind, MessageKind::Echo));
            match &m.payload {
                MessagePayload::Json(text) => {
                    assert_eq!(text, "{\"foo\": 1}");
                    let echoed: serde_json::Value = serde_json::from_str(text).unwrap();
                    let expected: serde_json::Value =
                        serde_json::from_str("{\"foo\": 1}").unwrap();
                    assert_eq!(echoed, expected);
                }
                MessagePayload::Entities(_) => panic!("echo must mirror the client text"),
            }
            assert_eq!(m.timestamp, 60);
            assert!(m.timestamp >= s.init_timestamp);
        }
        _ => panic!("a well-formed text must be echoed"),
    }
    assert_eq!(s.echoes_sent, 1);
    assert!(matches!(s.phase, SessionPhase::Active));
}

#[test]
fn malformed_text_is_silently_dropped() {
    let mut s = Session::begin();
    let _ = s.activate(generate_aircraft(50), 50);
    let step = s.on_event(SessionEvent::Text(String::from("{oops")), 61);
    assert!(matches!(step, SessionStep::Silent));
    assert_eq!(s.echoes_sent, 0);
    assert!(matches!(s.phase, SessionPhase::Active));
}

#[test]
fn close_frame_ends_the_session() {
    let mut s = Session::begin();
    let _ = s.activate(generate_aircraft(50), 50);
    let step = s.on_event(SessionEvent::CloseFrame, 62);
    assert!(matches!(step, SessionStep::Ended));
    assert!(matches!(s.phase, SessionPhase::Closed));
}

#[test]
fn transport_error_ends_the_session() {
    let mut s = Session::begin();
    let _ = s.activate(generate_aircraft(50), 50);
    let step = s.on_event(SessionEvent::TransportError, 63);
    assert!(matches!(step, SessionStep::Ended));
    assert!(matches!(s.phase, SessionPhase::Closed));
}

#[test]
fn other_frames_are_ignored() {
    let mut s = Session::begin();
    let _ = s.activate(generate_aircraft(50), 50);
    let step = s.on_event(SessionEvent::Other, 64);
    assert!(matches!(step, SessionStep::Silent));
    assert!(matches!(s.phase, SessionPhase::Active));
}

#[test]
fn failed_init_closes_without_sending() {
    let mut s = Session::begin();
    s.abort_init();
    assert!(matches!(s.phase, SessionPhase::Closed));
    assert_eq!(s.inits_sent, 0);
    assert_eq!(s.echoes_sent, 0);
}

#[test]
fn whole_session_run_emits_one_init_then_echoes() {
    let events = vec![
        SessionEvent::Other,
        SessionEvent::Text(String::from("{\"a\": true}")),
        SessionEvent::Text(String::from("not json")),
        SessionEvent::Text(String::from("[1, 2, 3]")),
        SessionEvent::CloseFrame,
        SessionEvent::Text(String::from("\"after close\"")),
    ];
    let msgs = telemetry_core::session::run_session(generate_aircraft(9), &events, 70);
    assert_eq!(msgs.len(), 3);
    assert!(matches!(msgs[0].kind, MessageKind::Init));
    assert!(matches!(msgs[1].kind, MessageKind::Echo));
    assert!(matches!(msgs[2].kind, MessageKind::Echo));
    match &msgs[0].payload {
        MessagePayload::Entities(v) => assert_eq!(v.len(), 100),
        MessagePayload::Json(_) => panic!("init must carry the snapshot"),
    }
    match &msgs[1].payload {
        MessagePayload::Json(t) => assert_eq!(t, "{\"a\": true}"),
        MessagePayload::Entities(_) => panic!("echo must mirror the client text"),
    }
    match &msgs[2].payload {
        MessagePayload::Json(t) => assert_eq!(t, "[1, 2, 3]"),
        MessagePayload::Entities(_) => panic!("echo must mirror the client text"),
    }
}

#[test]
fn gauge_counts_each_session_once() {
    let mut g = ConnectionGauge::new();
    assert_eq!(g.active, 0);
    g.connect();
    g.connect();
    assert_eq!(g.active, 2);
    g.disconnect();
    assert_eq!(g.active, 1);
    g.disconnect();
    assert_eq!(g.active, 0);
}

#[test]
fn gauge_never_goes_negative() {
    let mut g = ConnectionGauge::new();
    g.disconnect();
    assert_eq!(g.active, 0);
    g.connect();
    g.disconnect();
    g.disconnect();
    assert_eq!(g.active, 0);
}

#[test]
fn served_counter_adds_each_response() {
    let mut c = ServedCounter::new();
    assert_eq!(c.total, 0);
    c.record(100);
    c.record(8);
    assert_eq!(c.total, 108);
}

#[test]
fn served_counter_saturates_at_the_limit() {
    let mut c = ServedCounter::new();
    c.record(usize::MAX);
    c.record(usize::MAX);
    c.record(1);
    assert_eq!(c.total, u64::MAX);
}

#[test]
fn clock_reads_do_not_go_backwards() {
    let t1 = current_timestamp();
    let t2 = current_timestamp();
    assert!(t2 >= t1);
    assert!(t1 > 0);
}
