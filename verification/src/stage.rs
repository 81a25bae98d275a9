//! Processing-stage tags of a composition table.

use vstd::prelude::*;

use crate::error::ParseError;
use crate::text::str_eq;

verus! {

/// The simulation phase a composition table represents.
///
/// The tag is a closed enumeration; the loader refuses any other label at
/// parse time.
#[derive(Debug, Clone, Copy, PartialEq, Eq)]
pub enum StageTag {
    Nse,
    Freezeout,
    Last,
    Information,
}

/// The label of a stage tag as it appears in a table's file name.
///
/// The freeze-out and final stages are lower-case on disk although the tags
/// are capitalized; the mapping is part of the external naming scheme and is
/// preserved exactly.
pub open spec fn label_seq(t: StageTag) -> Seq<char> {
    match t {
        StageTag::Nse => "NSE"@,
        StageTag::Freezeout => "freezeout"@,
        StageTag::Last => "last"@,
        StageTag::Information => "Information"@,
    }
}

/// The stage tag a label denotes, if the label is recognized.
///
/// Labels are matched case-sensitively.
pub open spec fn stage_of_label(s: Seq<char>) -> Option<StageTag> {
    if s == "NSE"@ {
        Some(StageTag::Nse)
    } else if s == "freezeout"@ {
        Some(StageTag::Freezeout)
    } else if s == "last"@ {
        Some(StageTag::Last)
    } else if s == "Information"@ {
        Some(StageTag::Information)
    } else {
        None
    }
}

impl StageTag {
    /// Maps a file-name label to its stage tag; any unrecognized label is a
    /// parse error.
    pub fn from_label(label: &str) -> (r: Result<StageTag, ParseError>)
        ensures
            r == match stage_of_label(label@) {
                Some(t) => Ok::<StageTag, ParseError>(t),
                None => Err(ParseError::UnknownStage),
            },
    {
        if str_eq(label, "NSE") {
            Ok(StageTag::Nse)
        } else if str_eq(label, "freezeout") {
            Ok(StageTag::Freezeout)
        } else if str_eq(label, "last") {
            Ok(StageTag::Last)
        } else if str_eq(label, "Information") {
            Ok(StageTag::Information)
        } else {
            Err(ParseError::UnknownStage)
        }
    }

    /// The file-name label of this stage tag.
    pub fn label(&self) -> (r: String)
        ensures
            r@ == label_seq(*self),
    {
        match self {
            StageTag::Nse => "NSE".to_owned(),
            StageTag::Freezeout => "freezeout".to_owned(),
            StageTag::Last => "last".to_owned(),
            StageTag::Information => "Information".to_owned(),
        }
    }
}

} // verus!
