use rotor::{now_ns, timespec_to_ns, Action, Fix, TrackingState};

#[test]
fn clock_seconds_and_nanoseconds_combine() {
    assert_eq!(timespec_to_ns(1, 5), 1_000_000_005);
    assert_eq!(timespec_to_ns(0, 999_999_999), 999_999_999);
}

#[test]
fn clock_before_the_epoch() {
    assert_eq!(timespec_to_ns(-2, 800_000_000), -1_200_000_000);
}

#[test]
fn clock_is_held_to_range() {
    assert_eq!(timespec_to_ns(i64::MAX, 0), i64::MAX);
    assert_eq!(timespec_to_ns(i64::MIN, 0), i64::MIN);
    assert_eq!(timespec_to_ns(9_223_372_036, 854_775_807), i64::MAX);
    assert_eq!(timespec_to_ns(9_223_372_036, 854_775_808), i64::MAX);
}

#[test]
fn clock_reads_a_recent_time() {
    // 2020-01-01T00:00:00Z
    assert!(now_ns() > 1_577_836_800_000_000_000);
}

#[test]
fn clock_poll_reports_first_fix_at_the_clock_reading() {
    let before = now_ns();
    let mut s = TrackingState::new();
    let a = s.poll(Fix { azimuth_udeg: 90_000_000, elevation_udeg: 30_000_000 });
    let after = now_ns();
    assert_eq!(a, Action::ReportAndSend(b"P 90.0 30.0".to_vec()));
    let t = s.last_report_ns.unwrap();
    assert!(before <= t && t <= after);
    let b = s.poll(Fix { azimuth_udeg: 90_000_000, elevation_udeg: 30_000_000 });
    assert_eq!(b, Action::Wait);
}
