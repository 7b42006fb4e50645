//! Whether a contact attempt is done.

use vstd::prelude::*;
use crate::header::{normalize, normalize_header};

verus! {

/// Whether a contact attempt is done.
#[derive(Clone, Copy, Debug, PartialEq, Eq, Structural)]
pub enum Status {
    Done,
    Todo,
}

impl Status {
    /// What a cell text reads as, once lower-cased and trimmed: a value; no
    /// value for empty text; `None` for text that names no value.
    pub open spec fn read(v: Seq<char>) -> Option<Option<Status>> {
        let k = normalize(v);
        if k == "erledigt"@ {
            Some(Some(Status::Done))
        } else if k == "zu erledigen"@ {
            Some(Some(Status::Todo))
        } else if k.len() == 0 {
            Some(None)
        } else {
            None
        }
    }

    /// Reads a cell text; text that names no value is handed back as the error.
    pub fn from_excel_value(v: String) -> (r: Result<Option<Status>, String>)
        ensures
            match Status::read(v@) {
                Some(x) => r matches Ok(y) && y == x,
                None => r matches Err(e) && e@ == v@,
            },
    {
        let k = normalize_header(v.as_str());
        if k == String::from_str("erledigt") {
            Ok(Some(Status::Done))
        } else if k == String::from_str("zu erledigen") {
            Ok(Some(Status::Todo))
        } else if k.as_str().is_empty() {
            Ok(None)
        } else {
            Err(v)
        }
    }
}

} // verus!
