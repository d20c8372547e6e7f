use rotor::{Action, Event, Fix, TrackingState, FATAL_EXIT_STATUS, REPORT_INTERVAL_NS};

const MS: i64 = 1_000_000;

fn poll(now_ns: i64, az: i64, el: i64) -> Event {
    Event::Poll { now_ns, fix: Fix { azimuth_udeg: az, elevation_udeg: el } }
}

fn acted(a: &Action) -> bool {
    matches!(a, Action::Report | Action::ReportAndSend(_))
}

#[test]
fn tracking_first_poll_is_reported() {
    let mut s = TrackingState::new();
    assert_eq!(s.last_report_ns, None);
    assert_eq!(s.step(&poll(42, 0, -1)), Action::Report);
    assert_eq!(s.last_report_ns, Some(42));
}

#[test]
fn tracking_polls_at_a_thousand_per_second() {
    let mut s = TrackingState::new();
    let mut reported: Vec<i64> = Vec::new();
    let start: i64 = 1_700_000_000_000_000_000;
    for k in 0..3500i64 {
        let now = start + k * MS;
        if acted(&s.step(&poll(now, 10_000_000, 10_000_000))) {
            reported.push(now);
        }
    }
    assert_eq!(reported, vec![start, start + 1000 * MS, start + 2000 * MS, start + 3000 * MS]);
    for w in reported.windows(2) {
        assert!(w[1] - w[0] >= REPORT_INTERVAL_NS);
    }
}

#[test]
fn tracking_just_under_an_interval_waits() {
    let mut s = TrackingState::new();
    s.step(&poll(0, 0, 1));
    assert_eq!(s.step(&poll(REPORT_INTERVAL_NS - 1, 0, 1)), Action::Wait);
    assert_eq!(s.last_report_ns, Some(0));
    assert!(acted(&s.step(&poll(REPORT_INTERVAL_NS, 0, 1))));
    assert_eq!(s.last_report_ns, Some(REPORT_INTERVAL_NS));
}

#[test]
fn tracking_clock_stepping_back_keeps_last_report() {
    let mut s = TrackingState::new();
    s.step(&poll(10 * REPORT_INTERVAL_NS, 0, 1));
    let mut last = s.last_report_ns;
    for now in [3 * REPORT_INTERVAL_NS, -REPORT_INTERVAL_NS, 10 * REPORT_INTERVAL_NS + 5, 11 * REPORT_INTERVAL_NS, 2] {
        s.step(&poll(now, 0, 1));
        assert!(s.last_report_ns.unwrap() >= last.unwrap());
        last = s.last_report_ns;
    }
    assert_eq!(s.last_report_ns, Some(11 * REPORT_INTERVAL_NS));
}

#[test]
fn tracking_below_horizon_sends_nothing() {
    let mut s = TrackingState::new();
    assert_eq!(s.step(&poll(0, 123_456_000, 0)), Action::Report);
    assert_eq!(s.step(&poll(REPORT_INTERVAL_NS, 123_456_000, -45_000_000)), Action::Report);
}

#[test]
fn tracking_above_horizon_sends_one_command() {
    let mut s = TrackingState::new();
    assert_eq!(
        s.step(&poll(0, 123_456_000, 45_040_000)),
        Action::ReportAndSend(b"P 123.5 45.0".to_vec())
    );
    assert_eq!(s.step(&poll(1, 123_456_000, 45_040_000)), Action::Wait);
    assert_eq!(s.step(&poll(REPORT_INTERVAL_NS, 1, 1)), Action::ReportAndSend(b"P 0.0 0.0".to_vec()));
}

#[test]
fn tracking_send_failure_halts_for_good() {
    let mut s = TrackingState::new();
    assert!(acted(&s.step(&poll(0, 1_000_000, 1_000_000))));
    assert_eq!(s.step(&Event::SendFailed), Action::Halt);
    assert!(s.halted);
    for k in 1..5i64 {
        assert_eq!(s.step(&poll(k * 10 * REPORT_INTERVAL_NS, 1_000_000, 1_000_000)), Action::Halt);
    }
    assert_eq!(s.step(&Event::SendFailed), Action::Halt);
    assert_ne!(FATAL_EXIT_STATUS, 0);
    assert_eq!(FATAL_EXIT_STATUS, 1);
}
