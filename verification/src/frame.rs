//! Landmark frames: the four tracked points of one sample instant, and the
//! parser that reads a frame from one `|`-delimited text line.

use vstd::prelude::*;
use crate::text::{
    split_chars, split_str, field_value, parse_fixed_micro, lemma_field_value_bounds,
    MAX_COORD_MICRO,
};

verus! {

/// One landmark sample: position and detection confidence.  All four values
/// are fixed-point micro-units; a visibility of `950_000` means `0.95`.
#[derive(Debug, Clone, Copy, PartialEq, Eq, Structural)]
pub struct Point3D {
    pub x: i64,
    pub y: i64,
    pub z: i64,
    pub visibility: i64,
}

impl Point3D {
    /// Every value lies within the range the field parser guarantees.
    pub open spec fn wf(&self) -> bool {
        &&& -MAX_COORD_MICRO <= self.x <= MAX_COORD_MICRO
        &&& -MAX_COORD_MICRO <= self.y <= MAX_COORD_MICRO
        &&& -MAX_COORD_MICRO <= self.z <= MAX_COORD_MICRO
        &&& -MAX_COORD_MICRO <= self.visibility <= MAX_COORD_MICRO
    }
}

/// The four landmark points of one posture sample.
#[derive(Debug, Clone, Copy, PartialEq, Eq, Structural)]
pub struct PostureMetrics {
    pub left_ear: Point3D,
    pub right_ear: Point3D,
    pub left_shoulder: Point3D,
    pub right_shoulder: Point3D,
}

impl PostureMetrics {
    pub open spec fn wf(&self) -> bool {
        &&& self.left_ear.wf()
        &&& self.right_ear.wf()
        &&& self.left_shoulder.wf()
        &&& self.right_shoulder.wf()
    }
}

/// The frame denoted by sixteen fields, in the fixed order `left ear, right
/// ear, left shoulder, right shoulder`, each point as `x, y, z, visibility`.
pub open spec fn frame_of_fields(fs: Seq<Seq<char>>) -> PostureMetrics {
    PostureMetrics {
        left_ear: Point3D {
            x: field_value(fs[0]),
            y: field_value(fs[1]),
            z: field_value(fs[2]),
            visibility: field_value(fs[3]),
        },
        right_ear: Point3D {
            x: field_value(fs[4]),
            y: field_value(fs[5]),
            z: field_value(fs[6]),
            visibility: field_value(fs[7]),
        },
        left_shoulder: Point3D {
            x: field_value(fs[8]),
            y: field_value(fs[9]),
            z: field_value(fs[10]),
            visibility: field_value(fs[11]),
        },
        right_shoulder: Point3D {
            x: field_value(fs[12]),
            y: field_value(fs[13]),
            z: field_value(fs[14]),
            visibility: field_value(fs[15]),
        },
    }
}

/// The parse of one line: exactly sixteen `|`-separated fields make a frame,
/// with each unparseable field reading as zero; any other field count is
/// rejected.
pub open spec fn parse_frame_spec(s: Seq<char>) -> Option<PostureMetrics> {
    let fs = split_chars(s, '|');
    if fs.len() == 16 {
        Some(frame_of_fields(fs))
    } else {
        None
    }
}

/// The micro-unit value of one already-split field, zero where the field
/// does not parse.
fn parsed_field(fields: &Vec<Vec<char>>, i: usize) -> (v: i64)
    requires
        i < fields@.len(),
    ensures
        v == field_value(fields.deep_view()[i as int]),
        -MAX_COORD_MICRO <= v <= MAX_COORD_MICRO,
{
    proof {
        assert(fields.deep_view()[i as int] == fields@[i as int]@);
        lemma_field_value_bounds(fields@[i as int]@);
    }
    match parse_fixed_micro(&fields[i]) {
        Some(v) => v,
        None => 0,
    }
}

/// Parses one text line into a landmark frame.  The line must split into
/// exactly sixteen `|`-separated numeric fields; a field that is not a
/// well-formed decimal numeral contributes zero.
pub fn parse_frame(line: &str) -> (r: Option<PostureMetrics>)
    ensures
        r == parse_frame_spec(line@),
        r matches Some(m) ==> m.wf(),
{
    let fields = split_str(line, '|');
    if fields.len() != 16 {
        return None;
    }
    let m = PostureMetrics {
        left_ear: Point3D {
            x: parsed_field(&fields, 0),
            y: parsed_field(&fields, 1),
            z: parsed_field(&fields, 2),
            visibility: parsed_field(&fields, 3),
        },
        right_ear: Point3D {
            x: parsed_field(&fields, 4),
            y: parsed_field(&fields, 5),
            z: parsed_field(&fields, 6),
            visibility: parsed_field(&fields, 7),
        },
        left_shoulder: Point3D {
            x: parsed_field(&fields, 8),
            y: parsed_field(&fields, 9),
            z: parsed_field(&fields, 10),
            visibility: parsed_field(&fields, 11),
        },
        right_shoulder: Point3D {
            x: parsed_field(&fields, 12),
            y: parsed_field(&fields, 13),
            z: parsed_field(&fields, 14),
            visibility: parsed_field(&fields, 15),
        },
    };
    Some(m)
}

} // verus!
