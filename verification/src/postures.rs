//! The posture labels, their stable machine-readable codes and human-readable
//! messages, and the decoding of a code back into a label.

use vstd::prelude::*;
use crate::text::str_eq;

verus! {

/// The classified sitting posture.  The variants are listed in classification
/// precedence order: the first matching rule of the decision list wins.
#[derive(Debug, Clone, Copy, PartialEq, Eq, Structural)]
pub enum Posture {
    ShouldersNotVisible,
    HeadNotVisible,
    SlouchingBack,
    LeaningIn,
    HeadTiltLeft,
    HeadTiltRight,
    BodyTiltLeft,
    BodyTiltRight,
    Straight,
    Unknown,
}

/// The stable machine-readable code of each posture.
pub open spec fn code_of(p: Posture) -> Seq<char> {
    match p {
        Posture::ShouldersNotVisible => "SHOULDERS_NOT_VISIBLE"@,
        Posture::HeadNotVisible => "HEAD_NOT_VISIBLE"@,
        Posture::SlouchingBack => "SLOUCHING_BACK"@,
        Posture::LeaningIn => "LEANING_IN"@,
        Posture::HeadTiltLeft => "HEAD_TILT_LEFT"@,
        Posture::HeadTiltRight => "HEAD_TILT_RIGHT"@,
        Posture::BodyTiltLeft => "BODY_TILT_LEFT"@,
        Posture::BodyTiltRight => "BODY_TILT_RIGHT"@,
        Posture::Straight => "STRAIGHT"@,
        Posture::Unknown => "UNKNOWN"@,
    }
}

/// The human-readable message of each posture.
pub open spec fn message_of(p: Posture) -> Seq<char> {
    match p {
        Posture::ShouldersNotVisible => "Shoulders not visible"@,
        Posture::HeadNotVisible => "Head not visible"@,
        Posture::SlouchingBack => "Slouching back"@,
        Posture::LeaningIn => "Leaning in"@,
        Posture::HeadTiltLeft => "Head tilt left"@,
        Posture::HeadTiltRight => "Head tilt right"@,
        Posture::BodyTiltLeft => "Body tilt left"@,
        Posture::BodyTiltRight => "Body tilt right"@,
        Posture::Straight => "Straight"@,
        Posture::Unknown => "Unknown"@,
    }
}

/// Decodes a code back into a posture; unrecognized codes decode to
/// `Unknown`.
pub open spec fn posture_of_code(s: Seq<char>) -> Posture {
    if s == code_of(Posture::ShouldersNotVisible) {
        Posture::ShouldersNotVisible
    } else if s == code_of(Posture::HeadNotVisible) {
        Posture::HeadNotVisible
    } else if s == code_of(Posture::SlouchingBack) {
        Posture::SlouchingBack
    } else if s == code_of(Posture::LeaningIn) {
        Posture::LeaningIn
    } else if s == code_of(Posture::HeadTiltLeft) {
        Posture::HeadTiltLeft
    } else if s == code_of(Posture::HeadTiltRight) {
        Posture::HeadTiltRight
    } else if s == code_of(Posture::BodyTiltLeft) {
        Posture::BodyTiltLeft
    } else if s == code_of(Posture::BodyTiltRight) {
        Posture::BodyTiltRight
    } else if s == code_of(Posture::Straight) {
        Posture::Straight
    } else {
        Posture::Unknown
    }
}

impl Posture {
    /// The stable machine-readable code, e.g. `"SLOUCHING_BACK"`.
    pub fn get_posture_value(&self) -> (r: String)
        ensures
            r@ == code_of(*self),
    {
        match self {
            Posture::ShouldersNotVisible => "SHOULDERS_NOT_VISIBLE".to_owned(),
            Posture::HeadNotVisible => "HEAD_NOT_VISIBLE".to_owned(),
            Posture::SlouchingBack => "SLOUCHING_BACK".to_owned(),
            Posture::LeaningIn => "LEANING_IN".to_owned(),
            Posture::HeadTiltLeft => "HEAD_TILT_LEFT".to_owned(),
            Posture::HeadTiltRight => "HEAD_TILT_RIGHT".to_owned(),
            Posture::BodyTiltLeft => "BODY_TILT_LEFT".to_owned(),
            Posture::BodyTiltRight => "BODY_TILT_RIGHT".to_owned(),
            Posture::Straight => "STRAIGHT".to_owned(),
            Posture::Unknown => "UNKNOWN".to_owned(),
        }
    }

    /// The human-readable message, e.g. `"Slouching back"`.
    pub fn get_posture_message(&self) -> (r: String)
        ensures
            r@ == message_of(*self),
    {
        match self {
            Posture::ShouldersNotVisible => "Shoulders not visible".to_owned(),
            Posture::HeadNotVisible => "Head not visible".to_owned(),
            Posture::SlouchingBack => "Slouching back".to_owned(),
            Posture::LeaningIn => "Leaning in".to_owned(),
            Posture::HeadTiltLeft => "Head tilt left".to_owned(),
            Posture::HeadTiltRight => "Head tilt right".to_owned(),
            Posture::BodyTiltLeft => "Body tilt left".to_owned(),
            Posture::BodyTiltRight => "Body tilt right".to_owned(),
            Posture::Straight => "Straight".to_owned(),
            Posture::Unknown => "Unknown".to_owned(),
        }
    }
}

/// Decodes a code string into a posture, `Unknown` for unrecognized codes.
fn decode_posture(value: &str) -> (r: Posture)
    ensures
        r == posture_of_code(value@),
{
    if str_eq(value, "SHOULDERS_NOT_VISIBLE") {
        Posture::ShouldersNotVisible
    } else if str_eq(value, "HEAD_NOT_VISIBLE") {
        Posture::HeadNotVisible
    } else if str_eq(value, "SLOUCHING_BACK") {
        Posture::SlouchingBack
    } else if str_eq(value, "LEANING_IN") {
        Posture::LeaningIn
    } else if str_eq(value, "HEAD_TILT_LEFT") {
        Posture::HeadTiltLeft
    } else if str_eq(value, "HEAD_TILT_RIGHT") {
        Posture::HeadTiltRight
    } else if str_eq(value, "BODY_TILT_LEFT") {
        Posture::BodyTiltLeft
    } else if str_eq(value, "BODY_TILT_RIGHT") {
        Posture::BodyTiltRight
    } else if str_eq(value, "STRAIGHT") {
        Posture::Straight
    } else {
        Posture::Unknown
    }
}

impl From<&str> for Posture {
    fn from(value: &str) -> (r: Posture) {
        decode_posture(value)
    }
}

impl vstd::std_specs::convert::FromSpecImpl<&str> for Posture {
    open spec fn obeys_from_spec() -> bool {
        true
    }

    open spec fn from_spec(v: &str) -> Posture {
        posture_of_code(v@)
    }
}

impl From<String> for Posture {
    fn from(value: String) -> (r: Posture) {
        decode_posture(value.as_str())
    }
}

impl vstd::std_specs::convert::FromSpecImpl<String> for Posture {
    open spec fn obeys_from_spec() -> bool {
        true
    }

    open spec fn from_spec(v: String) -> Posture {
        posture_of_code(v@)
    }
}

/// Decoding a posture's own code yields that posture again: the code mapping
/// is bidirectional over the enumeration.
#[verifier::rlimit(100)]
pub proof fn lemma_posture_code_round_trip(p: Posture)
    ensures
        posture_of_code(code_of(p)) == p,
{
    assert(posture_of_code(code_of(Posture::ShouldersNotVisible)) == Posture::ShouldersNotVisible) by {
        reveal_strlit("SHOULDERS_NOT_VISIBLE");
        assert(code_of(Posture::ShouldersNotVisible).len() == 21);
    }
    assert(posture_of_code(code_of(Posture::HeadNotVisible)) == Posture::HeadNotVisible) by {
        reveal_strlit("SHOULDERS_NOT_VISIBLE");
        reveal_strlit("HEAD_NOT_VISIBLE");
        assert(code_of(Posture::ShouldersNotVisible).len() == 21);
        assert(code_of(Posture::HeadNotVisible).len() == 16);
        assert(code_of(Posture::HeadNotVisible) != code_of(Posture::ShouldersNotVisible));
    }
    assert(posture_of_code(code_of(Posture::SlouchingBack)) == Posture::SlouchingBack) by {
        reveal_strlit("SHOULDERS_NOT_VISIBLE");
        reveal_strlit("HEAD_NOT_VISIBLE");
        reveal_strlit("SLOUCHING_BACK");
        assert(code_of(Posture::ShouldersNotVisible).len() == 21);
        assert(code_of(Posture::HeadNotVisible).len() == 16);
        assert(code_of(Posture::SlouchingBack).len() == 14);
        assert(code_of(Posture::SlouchingBack) != code_of(Posture::ShouldersNotVisible));
        assert(code_of(Posture::SlouchingBack) != code_of(Posture::HeadNotVisible));
    }
    assert(posture_of_code(code_of(Posture::LeaningIn)) == Posture::LeaningIn) by {
        reveal_strlit("SHOULDERS_NOT_VISIBLE");
        reveal_strlit("HEAD_NOT_VISIBLE");
        reveal_strlit("SLOUCHING_BACK");
        reveal_strlit("LEANING_IN");
        assert(code_of(Posture::ShouldersNotVisible).len() == 21);
        assert(code_of(Posture::HeadNotVisible).len() == 16);
        assert(code_of(Posture::SlouchingBack).len() == 14);
        assert(code_of(Posture::LeaningIn).len() == 10);
        assert(code_of(Posture::LeaningIn) != code_of(Posture::ShouldersNotVisible));
        assert(code_of(Posture::LeaningIn) != code_of(Posture::HeadNotVisible));
        assert(code_of(Posture::LeaningIn) != code_of(Posture::SlouchingBack));
    }
    assert(posture_of_code(code_of(Posture::HeadTiltLeft)) == Posture::HeadTiltLeft) by {
        reveal_strlit("SHOULDERS_NOT_VISIBLE");
        reveal_strlit("HEAD_NOT_VISIBLE");
        reveal_strlit("SLOUCHING_BACK");
        reveal_strlit("LEANING_IN");
        reveal_strlit("HEAD_TILT_LEFT");
        assert(code_of(Posture::ShouldersNotVisible).len() == 21);
        assert(code_of(Posture::HeadNotVisible).len() == 16);
        assert(code_of(Posture::SlouchingBack).len() == 14);
        assert(code_of(Posture::LeaningIn).len() == 10);
        assert(code_of(Posture::HeadTiltLeft).len() == 14);
        assert(code_of(Posture::HeadTiltLeft) != code_of(Posture::ShouldersNotVisible));
        assert(code_of(Posture::HeadTiltLeft) != code_of(Posture::HeadNotVisible));
        assert(code_of(Posture::HeadTiltLeft)[0] != code_of(Posture::SlouchingBack)[0]);
        assert(code_of(Posture::HeadTiltLeft) != code_of(Posture::SlouchingBack));
        assert(code_of(Posture::HeadTiltLeft) != code_of(Posture::LeaningIn));
    }
    assert(posture_of_code(code_of(Posture::HeadTiltRight)) == Posture::HeadTiltRight) by {
        reveal_strlit("SHOULDERS_NOT_VISIBLE");
        reveal_strlit("HEAD_NOT_VISIBLE");
        reveal_strlit("SLOUCHING_BACK");
        reveal_strlit("LEANING_IN");
        reveal_strlit("HEAD_TILT_LEFT");
        reveal_strlit("HEAD_TILT_RIGHT");
        assert(code_of(Posture::ShouldersNotVisible).len() == 21);
        assert(code_of(Posture::HeadNotVisible).len() == 16);
        assert(code_of(Posture::SlouchingBack).len() == 14);
        assert(code_of(Posture::LeaningIn).len() == 10);
        assert(code_of(Posture::HeadTiltLeft).len() == 14);
        assert(code_of(Posture::HeadTiltRight).len() == 15);
        assert(code_of(Posture::HeadTiltRight) != code_of(Posture::ShouldersNotVisible));
        assert(code_of(Posture::HeadTiltRight) != code_of(Posture::HeadNotVisible));
        assert(code_of(Posture::HeadTiltRight) != code_of(Posture::SlouchingBack));
        assert(code_of(Posture::HeadTiltRight) != code_of(Posture::LeaningIn));
        assert(code_of(Posture::HeadTiltRight) != code_of(Posture::HeadTiltLeft));
    }
    assert(posture_of_code(code_of(Posture::BodyTiltLeft)) == Posture::BodyTiltLeft) by {
        reveal_strlit("SHOULDERS_NOT_VISIBLE");
        reveal_strlit("HEAD_NOT_VISIBLE");
        reveal_strlit("SLOUCHING_BACK");
        reveal_strlit("LEANING_IN");
        reveal_strlit("HEAD_TILT_LEFT");
        reveal_strlit("HEAD_TILT_RIGHT");
        reveal_strlit("BODY_TILT_LEFT");
        assert(code_of(Posture::ShouldersNotVisible).len() == 21);
        assert(code_of(Posture::HeadNotVisible).len() == 16);
        assert(code_of(Posture::SlouchingBack).len() == 14);
        assert(code_of(Posture::LeaningIn).len() == 10);
        assert(code_of(Posture::HeadTiltLeft).len() == 14);
        assert(code_of(Posture::HeadTiltRight).len() == 15);
        assert(code_of(Posture::BodyTiltLeft).len() == 14);
        assert(code_of(Posture::BodyTiltLeft) != code_of(Posture::ShouldersNotVisible));
        assert(code_of(Posture::BodyTiltLeft) != code_of(Posture::HeadNotVisible));
        assert(code_of(Posture::BodyTiltLeft)[0] != code_of(Posture::SlouchingBack)[0]);
        assert(code_of(Posture::BodyTiltLeft) != code_of(Posture::SlouchingBack));
        assert(code_of(Posture::BodyTiltLeft) != code_of(Posture::LeaningIn));
        assert(code_of(Posture::BodyTiltLeft)[0] != code_of(Posture::HeadTiltLeft)[0]);
        assert(code_of(Posture::BodyTiltLeft) != code_of(Posture::HeadTiltLeft));
        assert(code_of(Posture::BodyTiltLeft) != code_of(Posture::HeadTiltRight));
    }
    assert(posture_of_code(code_of(Posture::BodyTiltRight)) == Posture::BodyTiltRight) by {
        reveal_strlit("SHOULDERS_NOT_VISIBLE");
        reveal_strlit("HEAD_NOT_VISIBLE");
        reveal_strlit("SLOUCHING_BACK");
        reveal_strlit("LEANING_IN");
        reveal_strlit("HEAD_TILT_LEFT");
        reveal_strlit("HEAD_TILT_RIGHT");
        reveal_strlit("BODY_TILT_LEFT");
        reveal_strlit("BODY_TILT_RIGHT");
        assert(code_of(Posture::ShouldersNotVisible).len() == 21);
        assert(code_of(Posture::HeadNotVisible).len() == 16);
        assert(code_of(Posture::SlouchingBack).len() == 14);
        assert(code_of(Posture::LeaningIn).len() == 10);
        assert(code_of(Posture::HeadTiltLeft).len() == 14);
        assert(code_of(Posture::HeadTiltRight).len() == 15);
        assert(code_of(Posture::BodyTiltLeft).len() == 14);
        assert(code_of(Posture::BodyTiltRight).len() == 15);
        assert(code_of(Posture::BodyTiltRight) != code_of(Posture::ShouldersNotVisible));
        assert(code_of(Posture::BodyTiltRight) != code_of(Posture::HeadNotVisible));
        assert(code_of(Posture::BodyTiltRight) != code_of(Posture::SlouchingBack));
        assert(code_of(Posture::BodyTiltRight) != code_of(Posture::LeaningIn));
        assert(code_of(Posture::BodyTiltRight) != code_of(Posture::HeadTiltLeft));
        assert(code_of(Posture::BodyTiltRight)[0] != code_of(Posture::HeadTiltRight)[0]);
        assert(code_of(Posture::BodyTiltRight) != code_of(Posture::HeadTiltRight));
        assert(code_of(Posture::BodyTiltRight) != code_of(Posture::BodyTiltLeft));
    }
    assert(posture_of_code(code_of(Posture::Straight)) == Posture::Straight) by {
        reveal_strlit("SHOULDERS_NOT_VISIBLE");
        reveal_strlit("HEAD_NOT_VISIBLE");
        reveal_strlit("SLOUCHING_BACK");
        reveal_strlit("LEANING_IN");
        reveal_strlit("HEAD_TILT_LEFT");
        reveal_strlit("HEAD_TILT_RIGHT");
        reveal_strlit("BODY_TILT_LEFT");
        reveal_strlit("BODY_TILT_RIGHT");
        reveal_strlit("STRAIGHT");
        assert(code_of(Posture::ShouldersNotVisible).len() == 21);
        assert(code_of(Posture::HeadNotVisible).len() == 16);
        assert(code_of(Posture::SlouchingBack).len() == 14);
        assert(code_of(Posture::LeaningIn).len() == 10);
        assert(code_of(Posture::HeadTiltLeft).len() == 14);
        assert(code_of(Posture::HeadTiltRight).len() == 15);
        assert(code_of(Posture::BodyTiltLeft).len() == 14);
        assert(code_of(Posture::BodyTiltRight).len() == 15);
        assert(code_of(Posture::Straight).len() == 8);
        assert(code_of(Posture::Straight) != code_of(Posture::ShouldersNotVisible));
        assert(code_of(Posture::Straight) != code_of(Posture::HeadNotVisible));
        assert(code_of(Posture::Straight) != code_of(Posture::SlouchingBack));
        assert(code_of(Posture::Straight) != code_of(Posture::LeaningIn));
        assert(code_of(Posture::Straight) != code_of(Posture::HeadTiltLeft));
        assert(code_of(Posture::Straight) != code_of(Posture::HeadTiltRight));
        assert(code_of(Posture::Straight) != code_of(Posture::BodyTiltLeft));
        assert(code_of(Posture::Straight) != code_of(Posture::BodyTiltRight));
    }
    assert(posture_of_code(code_of(Posture::Unknown)) == Posture::Unknown) by {
        reveal_strlit("SHOULDERS_NOT_VISIBLE");
        reveal_strlit("HEAD_NOT_VISIBLE");
        reveal_strlit("SLOUCHING_BACK");
        reveal_strlit("LEANING_IN");
        reveal_strlit("HEAD_TILT_LEFT");
        reveal_strlit("HEAD_TILT_RIGHT");
        reveal_strlit("BODY_TILT_LEFT");
        reveal_strlit("BODY_TILT_RIGHT");
        reveal_strlit("STRAIGHT");
        reveal_strlit("UNKNOWN");
        assert(code_of(Posture::ShouldersNotVisible).len() == 21);
        assert(code_of(Posture::HeadNotVisible).len() == 16);
        assert(code_of(Posture::SlouchingBack).len() == 14);
        assert(code_of(Posture::LeaningIn).len() == 10);
        assert(code_of(Posture::HeadTiltLeft).len() == 14);
        assert(code_of(Posture::HeadTiltRight).len() == 15);
        assert(code_of(Posture::BodyTiltLeft).len() == 14);
        assert(code_of(Posture::BodyTiltRight).len() == 15);
        assert(code_of(Posture::Straight).len() == 8);
        assert(code_of(Posture::Unknown).len() == 7);
        assert(code_of(Posture::Unknown) != code_of(Posture::ShouldersNotVisible));
        assert(code_of(Posture::Unknown) != code_of(Posture::HeadNotVisible));
        assert(code_of(Posture::Unknown) != code_of(Posture::SlouchingBack));
        assert(code_of(Posture::Unknown) != code_of(Posture::LeaningIn));
        assert(code_of(Posture::Unknown) != code_of(Posture::HeadTiltLeft));
        assert(code_of(Posture::Unknown) != code_of(Posture::HeadTiltRight));
        assert(code_of(Posture::Unknown) != code_of(Posture::BodyTiltLeft));
        assert(code_of(Posture::Unknown) != code_of(Posture::BodyTiltRight));
        assert(code_of(Posture::Unknown) != code_of(Posture::Straight));
    }
}

/// A string that is no posture's code decodes to `Unknown`.
pub proof fn lemma_unrecognized_code_is_unknown(s: Seq<char>)
    requires
        forall|p: Posture| s != code_of(p),
    ensures
        posture_of_code(s) == Posture::Unknown,
{
}


} // verus!
