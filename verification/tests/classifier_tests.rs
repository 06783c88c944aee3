use posture_core::classify::determine_posture;
use posture_core::frame::{Point3D, PostureMetrics};
use posture_core::postures::Posture;

/// One micro-unit per millionth: `0.95` is `950_000`.
fn pt(x: i64, y: i64, z: i64, visibility: i64) -> Point3D {
    Point3D { x, y, z, visibility }
}

/// A frame with every landmark fully visible, all positions zero.
fn visible_frame() -> PostureMetrics {
    PostureMetrics {
        left_ear: pt(0, 0, 0, 950_000),
        right_ear: pt(0, 0, 0, 950_000),
        left_shoulder: pt(0, 0, 0, 950_000),
        right_shoulder: pt(0, 0, 0, 950_000),
    }
}

#[test]
fn all_visible_zero_positions_is_straight() {
    // All visibilities 0.95 and all positions zero: the depth rules fail
    // and both slopes are undefined, which falls through to Straight.
    assert_eq!(determine_posture(&visible_frame()), Posture::Straight);
}

#[test]
fn level_slopes_are_straight() {
    // Left/right offsets make both slopes defined and zero.
    let mut m = visible_frame();
    m.left_ear.x = 100_000;
    m.right_ear.x = -100_000;
    m.left_shoulder.x = 200_000;
    m.right_shoulder.x = -200_000;
    assert_eq!(determine_posture(&m), Posture::Straight);
}

#[test]
fn low_shoulder_visibility_wins_over_everything() {
    let mut m = visible_frame();
    m.left_shoulder.visibility = 500_000;
    // Make every later rule applicable too: the first rule still wins.
    m.left_ear.visibility = 100_000;
    m.left_ear.z = -1_000_000;
    m.right_ear.z = -1_000_000;
    assert_eq!(determine_posture(&m), Posture::ShouldersNotVisible);

    let mut m2 = visible_frame();
    m2.right_shoulder.visibility = 899_999;
    assert_eq!(determine_posture(&m2), Posture::ShouldersNotVisible);
}

#[test]
fn visibility_threshold_is_exact() {
    // Exactly 0.9 counts as visible; just below does not.
    let mut m = visible_frame();
    m.left_shoulder.visibility = 900_000;
    m.right_shoulder.visibility = 900_000;
    assert_eq!(determine_posture(&m), Posture::Straight);
    m.left_shoulder.visibility = 899_999;
    assert_eq!(determine_posture(&m), Posture::ShouldersNotVisible);
}

#[test]
fn hidden_ears_classify_head_not_visible() {
    let mut m = visible_frame();
    m.left_ear.visibility = 500_000;
    assert_eq!(determine_posture(&m), Posture::HeadNotVisible);
    let mut m2 = visible_frame();
    m2.right_ear.visibility = 0;
    assert_eq!(determine_posture(&m2), Posture::HeadNotVisible);
}

#[test]
fn deep_shoulders_classify_slouching_back() {
    // Ear depth -0.5, shoulder depth 0: -0.5 + 0.2 < 0 and 0 > -0.33.
    let mut m = visible_frame();
    m.left_ear.z = -500_000;
    m.right_ear.z = -500_000;
    assert_eq!(determine_posture(&m), Posture::SlouchingBack);
}

#[test]
fn sunken_shoulders_classify_leaning_in() {
    // Ear depth -0.8, shoulder depth -0.4: the slouch rule fails on the
    // shoulder floor, the lean rule matches (-0.8 + 0.33 < -0.4).
    let mut m = visible_frame();
    m.left_ear.z = -800_000;
    m.right_ear.z = -800_000;
    m.left_shoulder.z = -400_000;
    m.right_shoulder.z = -400_000;
    assert_eq!(determine_posture(&m), Posture::LeaningIn);
}

#[test]
fn ear_slope_classifies_head_tilt() {
    // Slope 0.2 tilts right; mirrored, it tilts left.
    let mut m = visible_frame();
    m.left_ear.x = 1_000_000;
    m.left_ear.y = 200_000;
    assert_eq!(determine_posture(&m), Posture::HeadTiltRight);
    m.left_ear.y = -200_000;
    assert_eq!(determine_posture(&m), Posture::HeadTiltLeft);
}

#[test]
fn ear_slope_threshold_is_strict() {
    // A slope of exactly one tenth does not tilt.
    let mut m = visible_frame();
    m.left_ear.x = 1_000_000;
    m.left_ear.y = 100_000;
    assert_eq!(determine_posture(&m), Posture::Straight);
    m.left_ear.y = 100_001;
    assert_eq!(determine_posture(&m), Posture::HeadTiltRight);
}

#[test]
fn shoulder_slope_classifies_body_tilt() {
    // Level ears, sloped shoulders.
    let mut m = visible_frame();
    m.left_ear.x = 1_000_000;
    m.left_shoulder.x = 1_000_000;
    m.left_shoulder.y = 300_000;
    assert_eq!(determine_posture(&m), Posture::BodyTiltRight);
    m.left_shoulder.y = -300_000;
    assert_eq!(determine_posture(&m), Posture::BodyTiltLeft);
}

#[test]
fn negative_run_reverses_the_comparison() {
    // Left ear to the left of the right ear: rise over run divides by a
    // negative difference, so a positive rise slopes downward.
    let mut m = visible_frame();
    m.left_ear.x = -1_000_000;
    m.left_ear.y = 200_000;
    assert_eq!(determine_posture(&m), Posture::HeadTiltLeft);
    m.left_ear.y = -200_000;
    assert_eq!(determine_posture(&m), Posture::HeadTiltRight);
}
