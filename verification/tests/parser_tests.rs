use posture_core::frame::parse_frame;
use posture_core::postures::Posture;
use posture_core::client::parse_metrics;

/// Builds a 16-field line from the four points, each as `x,y,z,visibility`.
fn line_of(fields: [&str; 16]) -> String {
    fields.join("|")
}

#[test]
fn parser_reads_each_position_exactly() {
    let line = line_of([
        "0.5", "-0.25", "1", "0.95", "0.1", "0.2", "0.3", "0.9", "-1", "0", "0.000001", "1.5",
        "2", "3", "4", "0.123456",
    ]);
    let m = parse_frame(&line).expect("sixteen numeric fields must parse");
    assert_eq!(m.left_ear.x, 500_000);
    assert_eq!(m.left_ear.y, -250_000);
    assert_eq!(m.left_ear.z, 1_000_000);
    assert_eq!(m.left_ear.visibility, 950_000);
    assert_eq!(m.right_ear.x, 100_000);
    assert_eq!(m.right_ear.y, 200_000);
    assert_eq!(m.right_ear.z, 300_000);
    assert_eq!(m.right_ear.visibility, 900_000);
    assert_eq!(m.left_shoulder.x, -1_000_000);
    assert_eq!(m.left_shoulder.y, 0);
    assert_eq!(m.left_shoulder.z, 1);
    assert_eq!(m.left_shoulder.visibility, 1_500_000);
    assert_eq!(m.right_shoulder.x, 2_000_000);
    assert_eq!(m.right_shoulder.y, 3_000_000);
    assert_eq!(m.right_shoulder.z, 4_000_000);
    assert_eq!(m.right_shoulder.visibility, 123_456);
}

#[test]
fn parser_defaults_unparseable_fields_to_zero() {
    let line = line_of([
        "abc", "", ".", "1e5", "--2", "1.2.3", "+", "0.95", "0", "0", "0", "0.95", "0", "0", "0",
        "0.95",
    ]);
    let m = parse_frame(&line).expect("the field count is right, bad fields read as zero");
    assert_eq!(m.left_ear.x, 0);
    assert_eq!(m.left_ear.y, 0);
    assert_eq!(m.left_ear.z, 0);
    assert_eq!(m.left_ear.visibility, 0);
    assert_eq!(m.right_ear.x, 0);
    assert_eq!(m.right_ear.y, 0);
    assert_eq!(m.right_ear.z, 0);
    assert_eq!(m.right_ear.visibility, 950_000);
}

#[test]
fn parser_rejects_wrong_field_count() {
    assert!(parse_frame("").is_none());
    assert!(parse_frame("1|2|3").is_none());
    let fifteen = vec!["0"; 15].join("|");
    assert!(parse_frame(&fifteen).is_none());
    let seventeen = vec!["0"; 17].join("|");
    assert!(parse_frame(&seventeen).is_none());
}

#[test]
fn parser_truncates_beyond_six_fractional_digits() {
    let line = line_of([
        "0.1234567", "0.9999999", "-0.0000019", "0.95", "0", "0", "0", "0.95", "0", "0", "0",
        "0.95", "0", "0", "0", "0.95",
    ]);
    let m = parse_frame(&line).expect("long fractions are truncated, not rejected");
    assert_eq!(m.left_ear.x, 123_456);
    assert_eq!(m.left_ear.y, 999_999);
    assert_eq!(m.left_ear.z, -1);
}

#[test]
fn parser_accepts_signs_and_bare_points() {
    let line = line_of([
        "+0.5", "-0.000001", "1.", ".5", "+1", "-1", "000.900000", "0.95", "0", "0", "0", "0.95",
        "0", "0", "0", "0.95",
    ]);
    let m = parse_frame(&line).expect("signed and dotted numerals parse");
    assert_eq!(m.left_ear.x, 500_000);
    assert_eq!(m.left_ear.y, -1);
    assert_eq!(m.left_ear.z, 1_000_000);
    assert_eq!(m.left_ear.visibility, 500_000);
    assert_eq!(m.right_ear.x, 1_000_000);
    assert_eq!(m.right_ear.y, -1_000_000);
    assert_eq!(m.right_ear.z, 900_000);
}

#[test]
fn parser_bounds_the_coordinate_range() {
    // One million whole units is the largest representable magnitude; more
    // reads as an unparseable field, so it contributes zero.
    let line = line_of([
        "1000000", "-1000000", "1000001", "1000000.000001", "0", "0", "0", "0.95", "0", "0", "0",
        "0.95", "0", "0", "0", "0.95",
    ]);
    let m = parse_frame(&line).expect("field count is right");
    assert_eq!(m.left_ear.x, 1_000_000_000_000);
    assert_eq!(m.left_ear.y, -1_000_000_000_000);
    assert_eq!(m.left_ear.z, 0);
    assert_eq!(m.left_ear.visibility, 0);
}

#[test]
fn parse_metrics_carries_classification_and_message() {
    let line = line_of([
        "0", "0", "0", "0.95", "0", "0", "0", "0.95", "0", "0", "0", "0.95", "0", "0", "0",
        "0.95",
    ]);
    let update = parse_metrics(&line).expect("a valid line yields an update");
    assert_eq!(update.posture, Posture::Straight);
    assert_eq!(update.message, "Straight");
    assert!(update.metrics.is_some());
    assert!(parse_metrics("not|a|frame").is_none());
}
