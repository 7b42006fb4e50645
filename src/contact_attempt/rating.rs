//! How a contact attempt went, from bad to good.

use vstd::prelude::*;
use crate::header::{normalize, normalize_header};

verus! {

/// How a contact attempt went, from bad to good.
#[derive(Clone, Copy, Debug, PartialEq, Eq, Structural)]
pub enum Rating {
    Bad,
    RatherBad,
    RatherGood,
    Good,
}

impl Rating {
    /// What a cell text reads as, once lower-cased and trimmed: a value; no
    /// value for empty text; `None` for text that names no value.
    pub open spec fn read(v: Seq<char>) -> Option<Option<Rating>> {
        let k = normalize(v);
        if k == "schlecht"@ {
            Some(Some(Rating::Bad))
        } else if k == "eher schlecht"@ {
            Some(Some(Rating::RatherBad))
        } else if k == "eher gut"@ {
            Some(Some(Rating::RatherGood))
        } else if k == "gut"@ {
            Some(Some(Rating::Good))
        } else if k.len() == 0 {
            Some(None)
        } else {
            None
        }
    }

    /// Reads a cell text; text that names no value is handed back as the error.
    pub fn from_excel_value(v: String) -> (r: Result<Option<Rating>, String>)
        ensures
            match Rating::read(v@) {
                Some(x) => r matches Ok(y) && y == x,
                None => r matches Err(e) && e@ == v@,
            },
    {
        let k = normalize_header(v.as_str());
        if k == String::from_str("schlecht") {
            Ok(Some(Rating::Bad))
        } else if k == String::from_str("eher schlecht") {
            Ok(Some(Rating::RatherBad))
        } else if k == String::from_str("eher gut") {
            Ok(Some(Rating::RatherGood))
        } else if k == String::from_str("gut") {
            Ok(Some(Rating::Good))
        } else if k.as_str().is_empty() {
            Ok(None)
        } else {
            Err(v)
        }
    }
}

} // verus!
