use posture_core::postures::Posture;

#[test]
fn test_posture_enum_conversion() {
    let posture = Posture::Straight;
    assert_eq!(posture.get_posture_value(), "STRAIGHT");
    assert_eq!(posture.get_posture_message(), "Straight");

    let bad_posture = Posture::SlouchingBack;
    assert_eq!(bad_posture.get_posture_value(), "SLOUCHING_BACK");
    assert_eq!(bad_posture.get_posture_message(), "Slouching back");
}

#[test]
fn test_posture_from_string() {
    let posture = Posture::from("STRAIGHT");
    assert!(matches!(posture, Posture::Straight));

    let unknown_posture = Posture::from("INVALID");
    assert!(matches!(unknown_posture, Posture::Unknown));
}

#[test]
fn test_posture_code_round_trip_all_variants() {
    let all = [
        Posture::ShouldersNotVisible,
        Posture::HeadNotVisible,
        Posture::SlouchingBack,
        Posture::LeaningIn,
        Posture::HeadTiltLeft,
        Posture::HeadTiltRight,
        Posture::BodyTiltLeft,
        Posture::BodyTiltRight,
        Posture::Straight,
        Posture::Unknown,
    ];
    for p in all {
        let code = p.get_posture_value();
        assert_eq!(Posture::from(code), p);
    }
    assert_eq!(Posture::from("anything-unrecognized"), Posture::Unknown);
    assert_eq!(Posture::from(String::from("anything-unrecognized")), Posture::Unknown);
}

#[test]
fn test_posture_messages_all_variants() {
    assert_eq!(Posture::ShouldersNotVisible.get_posture_message(), "Shoulders not visible");
    assert_eq!(Posture::HeadNotVisible.get_posture_message(), "Head not visible");
    assert_eq!(Posture::LeaningIn.get_posture_message(), "Leaning in");
    assert_eq!(Posture::HeadTiltLeft.get_posture_message(), "Head tilt left");
    assert_eq!(Posture::HeadTiltRight.get_posture_message(), "Head tilt right");
    assert_eq!(Posture::BodyTiltLeft.get_posture_message(), "Body tilt left");
    assert_eq!(Posture::BodyTiltRight.get_posture_message(), "Body tilt right");
    assert_eq!(Posture::Unknown.get_posture_message(), "Unknown");
}
