use rotor::format_command;

fn text(az_udeg: i64, el_udeg: i64) -> String {
    String::from_utf8(format_command(az_udeg, el_udeg)).unwrap()
}

#[test]
fn command_rounds_each_angle_to_one_decimal() {
    assert_eq!(format_command(123_456_000, 45_040_000), b"P 123.5 45.0".to_vec());
}

#[test]
fn command_halfway_values_round_up() {
    assert_eq!(text(10_050_000, 20_150_000), "P 10.1 20.2");
    assert_eq!(text(250_000, 350_000), "P 0.3 0.4");
}

#[test]
fn command_just_below_halfway_rounds_down() {
    assert_eq!(text(10_049_999, 20_149_999), "P 10.0 20.1");
}

#[test]
fn command_zero_and_whole_degrees() {
    assert_eq!(text(0, 0), "P 0.0 0.0");
    assert_eq!(text(90_000_000, 7_000_000), "P 90.0 7.0");
}

#[test]
fn command_carries_into_the_next_degree() {
    assert_eq!(text(359_960_000, 9_950_000), "P 360.0 10.0");
}

#[test]
fn command_negative_angles() {
    assert_eq!(text(-1_250_000, -50_000), "P -1.3 -0.1");
    assert_eq!(text(-40_000, 5), "P 0.0 0.0");
}

#[test]
fn command_extreme_values() {
    assert_eq!(text(i64::MAX, i64::MIN), "P 9223372036854.8 -9223372036854.8");
}

#[test]
fn command_has_no_line_terminator() {
    let c = format_command(1_000_000, 2_000_000);
    assert_eq!(*c.last().unwrap(), b'0');
}
