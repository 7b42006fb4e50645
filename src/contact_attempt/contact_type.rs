//! How a contact attempt was made.

use vstd::prelude::*;
use crate::header::{normalize, normalize_header};

verus! {

/// How a contact attempt was made.
#[derive(Clone, Copy, Debug, PartialEq, Eq, Structural)]
pub enum ContactType {
    Email,
    Personally,
    Phone,
}

impl ContactType {
    /// What a cell text reads as, once lower-cased and trimmed: a value; no
    /// value for empty text; `None` for text that names no value.
    pub open spec fn read(v: Seq<char>) -> Option<Option<ContactType>> {
        let k = normalize(v);
        if k == "email"@ {
            Some(Some(ContactType::Email))
        } else if k == "persönlich"@ {
            Some(Some(ContactType::Personally))
        } else if k == "telefon"@ {
            Some(Some(ContactType::Phone))
        } else if k.len() == 0 {
            Some(None)
        } else {
            None
        }
    }

    /// Reads a cell text; text that names no value is handed back as the error.
    pub fn from_excel_value(v: String) -> (r: Result<Option<ContactType>, String>)
        ensures
            match ContactType::read(v@) {
                Some(x) => r matches Ok(y) && y == x,
                None => r matches Err(e) && e@ == v@,
            },
    {
        let k = normalize_header(v.as_str());
        if k == String::from_str("email") {
            Ok(Some(ContactType::Email))
        } else if k == String::from_str("persönlich") {
            Ok(Some(ContactType::Personally))
        } else if k == String::from_str("telefon") {
            Ok(Some(ContactType::Phone))
        } else if k.as_str().is_empty() {
            Ok(None)
        } else {
            Err(v)
        }
    }
}

} // verus!
