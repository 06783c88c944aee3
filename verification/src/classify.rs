//! The posture classifier: a deterministic, ordered decision list over one
//! landmark frame.  The first matching rule wins; there is no backtracking.
//!
//! All thresholds are fixed-point micro-units, so each rule of the original
//! real-valued decision procedure becomes exact integer arithmetic: an
//! average comparison is doubled, a slope comparison with one tenth is
//! cross-multiplied by ten with the sign of the denominator respected.

use vstd::prelude::*;
use crate::frame::PostureMetrics;
use crate::postures::Posture;

verus! {

/// Landmarks with confidence below `0.9` count as not visible.
pub const VISIBILITY_THRESHOLD_MICRO: i64 = 900_000;

/// Slouching: the average ear depth sits at least `0.2` before the average
/// shoulder depth.
pub const SLOUCH_DEPTH_MARGIN_MICRO: i64 = 200_000;

/// Leaning in: the average ear depth sits at least `0.33` before the average
/// shoulder depth.
pub const LEAN_DEPTH_MARGIN_MICRO: i64 = 330_000;

/// Slouching additionally needs the average shoulder depth above `-0.33`.
pub const SLOUCH_SHOULDER_FLOOR_MICRO: i64 = -330_000;

/// Either shoulder's confidence is below the visibility threshold.
pub open spec fn shoulders_not_visible(m: PostureMetrics) -> bool {
    m.left_shoulder.visibility < VISIBILITY_THRESHOLD_MICRO
        || m.right_shoulder.visibility < VISIBILITY_THRESHOLD_MICRO
}

/// Either ear's confidence is below the visibility threshold.
pub open spec fn head_not_visible(m: PostureMetrics) -> bool {
    m.left_ear.visibility < VISIBILITY_THRESHOLD_MICRO
        || m.right_ear.visibility < VISIBILITY_THRESHOLD_MICRO
}

/// `mean(ear depths) + 0.2 < mean(shoulder depths)` and
/// `mean(shoulder depths) > -0.33`, both sides doubled to stay integral.
pub open spec fn slouching_back(m: PostureMetrics) -> bool {
    m.left_ear.z + m.right_ear.z + 2 * SLOUCH_DEPTH_MARGIN_MICRO < m.left_shoulder.z
        + m.right_shoulder.z && m.left_shoulder.z + m.right_shoulder.z > 2
        * SLOUCH_SHOULDER_FLOOR_MICRO
}

/// `mean(ear depths) + 0.33 < mean(shoulder depths)`, doubled.
pub open spec fn leaning_in(m: PostureMetrics) -> bool {
    m.left_ear.z + m.right_ear.z + 2 * LEAN_DEPTH_MARGIN_MICRO < m.left_shoulder.z
        + m.right_shoulder.z
}

/// The slope `dy / dx` exceeds one tenth.  Cross-multiplied by `10 * dx`
/// with the sign of `dx` respected; an undefined slope (`dx == 0`) does not
/// exceed anything and falls through to the next rule.
pub open spec fn slope_above_tenth(dy: int, dx: int) -> bool {
    if dx > 0 {
        10 * dy > dx
    } else if dx < 0 {
        10 * dy < dx
    } else {
        false
    }
}

/// The slope `dy / dx` lies below minus one tenth, with the same treatment
/// of the sign of `dx` and of an undefined slope.
pub open spec fn slope_below_neg_tenth(dy: int, dx: int) -> bool {
    if dx > 0 {
        10 * dy < -dx
    } else if dx < 0 {
        10 * dy > -dx
    } else {
        false
    }
}

/// The ear line's rise over run, left ear minus right ear.
pub open spec fn ear_dy(m: PostureMetrics) -> int {
    m.left_ear.y - m.right_ear.y
}

pub open spec fn ear_dx(m: PostureMetrics) -> int {
    m.left_ear.x - m.right_ear.x
}

/// The shoulder line's rise over run, left shoulder minus right shoulder.
pub open spec fn shoulder_dy(m: PostureMetrics) -> int {
    m.left_shoulder.y - m.right_shoulder.y
}

pub open spec fn shoulder_dx(m: PostureMetrics) -> int {
    m.left_shoulder.x - m.right_shoulder.x
}

/// The decision list: visibility checks first, then depth rules, then head
/// tilt by ear slope, then body tilt by shoulder slope, else straight.
pub open spec fn classify(m: PostureMetrics) -> Posture {
    if shoulders_not_visible(m) {
        Posture::ShouldersNotVisible
    } else if head_not_visible(m) {
        Posture::HeadNotVisible
    } else if slouching_back(m) {
        Posture::SlouchingBack
    } else if leaning_in(m) {
        Posture::LeaningIn
    } else if slope_above_tenth(ear_dy(m), ear_dx(m)) {
        Posture::HeadTiltRight
    } else if slope_below_neg_tenth(ear_dy(m), ear_dx(m)) {
        Posture::HeadTiltLeft
    } else if slope_above_tenth(shoulder_dy(m), shoulder_dx(m)) {
        Posture::BodyTiltRight
    } else if slope_below_neg_tenth(shoulder_dy(m), shoulder_dx(m)) {
        Posture::BodyTiltLeft
    } else {
        Posture::Straight
    }
}

/// Whether the slope `dy / dx` exceeds one tenth.
fn slope_above_tenth_check(dy: i64, dx: i64) -> (r: bool)
    requires
        -4_000_000_000_000 <= dy <= 4_000_000_000_000,
        -4_000_000_000_000 <= dx <= 4_000_000_000_000,
    ensures
        r == slope_above_tenth(dy as int, dx as int),
{
    if dx > 0 {
        10 * dy > dx
    } else if dx < 0 {
        10 * dy < dx
    } else {
        false
    }
}

/// Whether the slope `dy / dx` lies below minus one tenth.
fn slope_below_neg_tenth_check(dy: i64, dx: i64) -> (r: bool)
    requires
        -4_000_000_000_000 <= dy <= 4_000_000_000_000,
        -4_000_000_000_000 <= dx <= 4_000_000_000_000,
    ensures
        r == slope_below_neg_tenth(dy as int, dx as int),
{
    if dx > 0 {
        10 * dy < -dx
    } else if dx < 0 {
        10 * dy > -dx
    } else {
        false
    }
}

/// Maps one landmark frame to its posture label by the decision list.
pub fn determine_posture(metrics: &PostureMetrics) -> (p: Posture)
    requires
        metrics.wf(),
    ensures
        p == classify(*metrics),
{
    let m = *metrics;
    if m.left_shoulder.visibility < VISIBILITY_THRESHOLD_MICRO || m.right_shoulder.visibility
        < VISIBILITY_THRESHOLD_MICRO {
        return Posture::ShouldersNotVisible;
    }
    if m.left_ear.visibility < VISIBILITY_THRESHOLD_MICRO || m.right_ear.visibility
        < VISIBILITY_THRESHOLD_MICRO {
        return Posture::HeadNotVisible;
    }
    let ear_depth_sum = m.left_ear.z + m.right_ear.z;
    let shoulder_depth_sum = m.left_shoulder.z + m.right_shoulder.z;
    if ear_depth_sum + 2 * SLOUCH_DEPTH_MARGIN_MICRO < shoulder_depth_sum && shoulder_depth_sum > 2
        * SLOUCH_SHOULDER_FLOOR_MICRO {
        return Posture::SlouchingBack;
    }
    if ear_depth_sum + 2 * LEAN_DEPTH_MARGIN_MICRO < shoulder_depth_sum {
        return Posture::LeaningIn;
    }
    let e_dy = m.left_ear.y - m.right_ear.y;
    let e_dx = m.left_ear.x - m.right_ear.x;
    if slope_above_tenth_check(e_dy, e_dx) {
        return Posture::HeadTiltRight;
    }
    if slope_below_neg_tenth_check(e_dy, e_dx) {
        return Posture::HeadTiltLeft;
    }
    let s_dy = m.left_shoulder.y - m.right_shoulder.y;
    let s_dx = m.left_shoulder.x - m.right_shoulder.x;
    if slope_above_tenth_check(s_dy, s_dx) {
        return Posture::BodyTiltRight;
    }
    if slope_below_neg_tenth_check(s_dy, s_dx) {
        return Posture::BodyTiltLeft;
    }
    Posture::Straight
}

/// A frame with either shoulder below the visibility threshold classifies as
/// `ShouldersNotVisible`, whatever its other fields hold.
pub proof fn lemma_shoulder_visibility_first(m: PostureMetrics)
    requires
        shoulders_not_visible(m),
    ensures
        classify(m) == Posture::ShouldersNotVisible,
{
}

/// The decision list is total and mutually exclusive: every frame gets
/// exactly one label, each label comes exactly from its own guard with all
/// earlier guards discharged, and the classifier never yields `Unknown`.
pub proof fn lemma_decision_list_exclusive(m: PostureMetrics)
    ensures
        (classify(m) == Posture::ShouldersNotVisible) <==> shoulders_not_visible(m),
        (classify(m) == Posture::HeadNotVisible) <==> (!shoulders_not_visible(m)
            && head_not_visible(m)),
        (classify(m) == Posture::SlouchingBack) <==> (!shoulders_not_visible(m)
            && !head_not_visible(m) && slouching_back(m)),
        (classify(m) == Posture::LeaningIn) <==> (!shoulders_not_visible(m) && !head_not_visible(m)
            && !slouching_back(m) && leaning_in(m)),
        (classify(m) == Posture::HeadTiltRight) <==> (!shoulders_not_visible(m)
            && !head_not_visible(m) && !slouching_back(m) && !leaning_in(m) && slope_above_tenth(
            ear_dy(m),
            ear_dx(m),
        )),
        (classify(m) == Posture::HeadTiltLeft) <==> (!shoulders_not_visible(m)
            && !head_not_visible(m) && !slouching_back(m) && !leaning_in(m) && !slope_above_tenth(
            ear_dy(m),
            ear_dx(m),
        ) && slope_below_neg_tenth(ear_dy(m), ear_dx(m))),
        (classify(m) == Posture::BodyTiltRight) <==> (!shoulders_not_visible(m)
            && !head_not_visible(m) && !slouching_back(m) && !leaning_in(m) && !slope_above_tenth(
            ear_dy(m),
            ear_dx(m),
        ) && !slope_below_neg_tenth(ear_dy(m), ear_dx(m)) && slope_above_tenth(
            shoulder_dy(m),
            shoulder_dx(m),
        )),
        (classify(m) == Posture::BodyTiltLeft) <==> (!shoulders_not_visible(m)
            && !head_not_visible(m) && !slouching_back(m) && !leaning_in(m) && !slope_above_tenth(
            ear_dy(m),
            ear_dx(m),
        ) && !slope_below_neg_tenth(ear_dy(m), ear_dx(m)) && !slope_above_tenth(
            shoulder_dy(m),
            shoulder_dx(m),
        ) && slope_below_neg_tenth(shoulder_dy(m), shoulder_dx(m))),
        classify(m) != Posture::Unknown,
{
}

} // verus!
