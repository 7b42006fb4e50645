//! The failures an import can end in.

use vstd::prelude::*;
use crate::decimal::{digits_padded, nat_text, padded_digits};
use crate::text::string_of;

verus! {

/// Why an import failed. Every failure ends the import of the whole file.
#[derive(Debug)]
pub enum ImportError {
    /// The document type asked for is not one this library imports.
    UnknownImport(String),
    /// The workbook has no sheet of this name.
    SheetNotFound(String),
    /// A cell could not be read: row, column label, reason.
    ValueError(usize, String, String),
    /// A header that no alias of the document's columns matches.
    UnknownHeader(String),
    /// A column of the document that no header matched, by its canonical name.
    MissingHeader(String),
    /// Any other failure, described in words.
    Error(String),
}

/// How a failure is told to the user.
pub open spec fn message_of(e: ImportError) -> Seq<char> {
    match e {
        ImportError::UnknownImport(i) => "Unknown import type "@ + i@,
        ImportError::SheetNotFound(n) => "Could not find sheet with name "@ + n@,
        ImportError::ValueError(row, column, reason) => "Value '"@ + reason@ + "' at row "@
            + nat_text(row as nat) + " column "@ + column@,
        ImportError::UnknownHeader(h) => "Unknown header name "@ + h@ + " found"@,
        ImportError::MissingHeader(h) => "Missing header name "@ + h@,
        ImportError::Error(m) => m@,
    }
}

impl ImportError {
    /// The failure in words, for the user.
    pub fn message(&self) -> (r: String)
        ensures
            r@ == message_of(*self),
    {
        match self {
            ImportError::UnknownImport(i) => {
                let mut s = String::from_str("Unknown import type ");
                s.append(i.as_str());
                s
            },
            ImportError::SheetNotFound(n) => {
                let mut s = String::from_str("Could not find sheet with name ");
                s.append(n.as_str());
                s
            },
            ImportError::ValueError(row, column, reason) => {
                let mut s = String::from_str("Value '");
                s.append(reason.as_str());
                s.append("' at row ");
                let d = digits_padded(*row as u128, 0);
                assert(d@ == nat_text(*row as nat)) by {
                    assert(padded_digits(*row as nat, 0) == nat_text(*row as nat));
                }
                let ds = string_of(&d);
                s.append(ds.as_str());
                s.append(" column ");
                s.append(column.as_str());
                s
            },
            ImportError::UnknownHeader(h) => {
                let mut s = String::from_str("Unknown header name ");
                s.append(h.as_str());
                s.append(" found");
                s
            },
            ImportError::MissingHeader(h) => {
                let mut s = String::from_str("Missing header name ");
                s.append(h.as_str());
                s
            },
            ImportError::Error(m) => m.clone(),
        }
    }
}

} // verus!
