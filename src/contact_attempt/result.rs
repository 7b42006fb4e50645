//! What a contact attempt came to.

use vstd::prelude::*;
use crate::header::{normalize, normalize_header};

verus! {

/// What a contact attempt came to.
#[derive(Clone, Copy, Debug, PartialEq, Eq, Structural)]
pub enum Result_ {
    Appointment,
    ContactAgain,
    CustomerAcquired,
    EmailSent,
    GdprBan,
    ReachedNewContact,
    ReachedNoInterest,
    NotReached,
    ReachedInterest,
    Wrong,
    AbortByCustomer,
    AbortBySales,
    CreateNewAppointment,
    DataRequest,
    DataSend,
    OfferCreated,
}

impl Result_ {
    /// What a cell text reads as, once lower-cased and trimmed: a value; no
    /// value for empty text; `None` for text that names no value.
    pub open spec fn read(v: Seq<char>) -> Option<Option<Result_>> {
        let k = normalize(v);
        if k == "termin vereinbart"@ {
            Some(Some(Result_::Appointment))
        } else if k == "wieder kontaktieren"@ {
            Some(Some(Result_::ContactAgain))
        } else if k == "kunde gewonnen"@ {
            Some(Some(Result_::CustomerAcquired))
        } else if k == "email versendet"@ {
            Some(Some(Result_::EmailSent))
        } else if k == "gesperrt (dsgvo)"@ {
            Some(Some(Result_::GdprBan))
        } else if k == "neuer kontakt"@ {
            Some(Some(Result_::ReachedNewContact))
        } else if k == "kein interesse"@ {
            Some(Some(Result_::ReachedNoInterest))
        } else if k == "nicht erreicht"@ {
            Some(Some(Result_::NotReached))
        } else if k == "erreicht - interesse"@ {
            Some(Some(Result_::ReachedInterest))
        } else if k == "falscher kontakt"@ {
            Some(Some(Result_::Wrong))
        } else if k == "abgebrochen durch kunde"@ {
            Some(Some(Result_::AbortByCustomer))
        } else if k == "abgebrochen durch vertrieb"@ {
            Some(Some(Result_::AbortBySales))
        } else if k == "neuen termin vereinbaren"@ {
            Some(Some(Result_::CreateNewAppointment))
        } else if k == "daten angefragt"@ {
            Some(Some(Result_::DataRequest))
        } else if k == "datenanforderung"@ {
            Some(Some(Result_::DataRequest))
        } else if k == "daten übermittelt"@ {
            Some(Some(Result_::DataSend))
        } else if k == "angebot erstellt"@ {
            Some(Some(Result_::OfferCreated))
        } else if k.len() == 0 {
            Some(None)
        } else {
            None
        }
    }

    /// Reads a cell text; text that names no value is handed back as the error.
    pub fn from_excel_value(v: String) -> (r: Result<Option<Result_>, String>)
        ensures
            match Result_::read(v@) {
                Some(x) => r matches Ok(y) && y == x,
                None => r matches Err(e) && e@ == v@,
            },
    {
        let k = normalize_header(v.as_str());
        if k == String::from_str("termin vereinbart") {
            Ok(Some(Result_::Appointment))
        } else if k == String::from_str("wieder kontaktieren") {
            Ok(Some(Result_::ContactAgain))
        } else if k == String::from_str("kunde gewonnen") {
            Ok(Some(Result_::CustomerAcquired))
        } else if k == String::from_str("email versendet") {
            Ok(Some(Result_::EmailSent))
        } else if k == String::from_str("gesperrt (dsgvo)") {
            Ok(Some(Result_::GdprBan))
        } else if k == String::from_str("neuer kontakt") {
            Ok(Some(Result_::ReachedNewContact))
        } else if k == String::from_str("kein interesse") {
            Ok(Some(Result_::ReachedNoInterest))
        } else if k == String::from_str("nicht erreicht") {
            Ok(Some(Result_::NotReached))
        } else if k == String::from_str("erreicht - interesse") {
            Ok(Some(Result_::ReachedInterest))
        } else if k == String::from_str("falscher kontakt") {
            Ok(Some(Result_::Wrong))
        } else if k == String::from_str("abgebrochen durch kunde") {
            Ok(Some(Result_::AbortByCustomer))
        } else if k == String::from_str("abgebrochen durch vertrieb") {
            Ok(Some(Result_::AbortBySales))
        } else if k == String::from_str("neuen termin vereinbaren") {
            Ok(Some(Result_::CreateNewAppointment))
        } else if k == String::from_str("daten angefragt") {
            Ok(Some(Result_::DataRequest))
        } else if k == String::from_str("datenanforderung") {
            Ok(Some(Result_::DataRequest))
        } else if k == String::from_str("daten übermittelt") {
            Ok(Some(Result_::DataSend))
        } else if k == String::from_str("angebot erstellt") {
            Ok(Some(Result_::OfferCreated))
        } else if k.as_str().is_empty() {
            Ok(None)
        } else {
            Err(v)
        }
    }
}

} // verus!
