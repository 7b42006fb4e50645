//! The Netze NÖ layout: meter points in row 0 from column 1 on, readings from
//! row 1 on; a timestamp is a date-and-time cell or text such as
//! `01.01.2021 00:15`.

use vstd::prelude::*;
use crate::cell::{cell_datetime, parse_datetime, parsed_datetime, DateTime, Sheet};
use crate::decimal::Decimal;
use crate::error::ImportError;
use crate::meterpoint_value::{
    first_unread, header_labels, lemma_first_unread_step, read_header_labels, read_row_readings,
    row_readings, series_result, text_at, whole_seconds_of, Data,
};

verus! {

/// Meter point identifiers are cut to this many characters.
pub const LABEL_LENGTH: usize = 33;

/// How a timestamp written as text reads.
pub open spec fn stamp_format() -> Seq<char> {
    "%d.%m.%Y %H:%M"@
}

pub open spec fn stamp(s: &Sheet, r: int) -> Option<DateTime> {
    let read = match s.cell(r, 0) {
        Some(c) => cell_datetime(c),
        None => None,
    };
    match read {
        Some(d) => Some(whole_seconds_of(d)),
        None => match parsed_datetime(text_at(s, r, 0), stamp_format()) {
            Some(d) => Some(whole_seconds_of(d)),
            None => None,
        },
    }
}

pub open spec fn data_rows(s: &Sheet) -> nat {
    if s.rows@.len() > 1 {
        (s.rows@.len() - 1) as nat
    } else {
        0
    }
}

pub open spec fn columns(s: &Sheet) -> Seq<Seq<char>> {
    header_labels(s, 0, 1, Some(LABEL_LENGTH as nat))
}

pub open spec fn stamps(s: &Sheet) -> Seq<Option<DateTime>> {
    Seq::new(data_rows(s), |i: int| stamp(s, 1 + i))
}

/// The reason names the text that could not be read.
pub open spec fn reasons(s: &Sheet) -> Seq<Seq<char>> {
    Seq::new(data_rows(s), |i: int| "Could not parse datetime "@ + text_at(s, 1 + i, 0))
}

pub open spec fn readings(s: &Sheet) -> Seq<Seq<Option<Decimal>>> {
    Seq::new(data_rows(s), |i: int| row_readings(s, 1 + i, 1, columns(s).len(), false))
}

fn text_of(sheet: &Sheet, r: usize, c: usize) -> (t: String)
    requires
        sheet.wf(),
    ensures
        t@ == text_at(sheet, r as int, c as int),
{
    match sheet.get_value(r, c) {
        Some(x) => x.text(),
        None => String::new(),
    }
}

/// Imports a sheet of the Netze NÖ layout.
pub fn run(sheet: &Sheet) -> (r: Result<Data, ImportError>)
    requires
        sheet.wf(),
    ensures
        series_result(r, columns(sheet), stamps(sheet), reasons(sheet), readings(sheet), 1),
{
    let headers = read_header_labels(sheet, 0, 1, Some(LABEL_LENGTH));
    let n = headers.len();
    assert(headers@.map_values(|x: String| x@).len() == n);
    let w0: usize = if sheet.rows.len() > 0 {
        sheet.rows[0].len()
    } else {
        0
    };
    proof {
        if sheet.rows@.len() > 0 && sheet.rows@[0]@.len() > 1 {
            assert(1 + n == w0);
        } else {
            assert(n == 0);
        }
    }
    let ghost st = stamps(sheet);
    let mut index: Vec<DateTime> = Vec::new();
    let mut data: Vec<Vec<Option<Decimal>>> = Vec::new();
    let mut i: usize = 1;
    assert(st.take(0) =~= Seq::<Option<DateTime>>::empty());
    while i < sheet.rows.len()
        invariant
            sheet.wf(),
            st == stamps(sheet),
            1 + n <= usize::MAX,
            n == columns(sheet).len(),
            1 <= i,
            i <= sheet.rows@.len() || i == 1,
            index@.len() == i - 1 && data@.len() == i - 1,
            first_unread(st.take(i - 1)) is None,
            forall|k: int| 0 <= k < index@.len() ==> st[k] == Some(#[trigger] index@[k]),
            forall|k: int|
                0 <= k < data@.len() ==> (#[trigger] data@[k])@ == readings(sheet)[k],
        decreases sheet.rows@.len() - i,
    {
        proof {
            lemma_first_unread_step(st, i - 1);
        }
        let read = match sheet.get_value(i, 0) {
            Some(c) => c.as_datetime(),
            None => None,
        };
        let t = match read {
            Some(d) => Some(d),
            None => {
                let text = text_of(sheet, i, 0);
                parse_datetime(text.as_str(), "%d.%m.%Y %H:%M")
            },
        };
        match t {
            Some(d) => {
                let w = d.whole_seconds();
                assert(st[i - 1] == Some(w));
                index.push(w);
                let row = read_row_readings(sheet, i, 1, n, false);
                data.push(row);
            },
            None => {
                assert(st[i - 1] is None);
                let mut msg = String::from_str("Could not parse datetime ");
                let text = text_of(sheet, i, 0);
                msg.append(text.as_str());
                assert(msg@ == reasons(sheet)[i - 1]);
                return Err(ImportError::ValueError(i, String::from_str("Timestamp"), msg));
            },
        }
        i = i + 1;
    }
    proof {
        if sheet.rows@.len() > 1 {
            assert(st.take(i - 1) =~= st);
        } else {
            assert(st =~= Seq::<Option<DateTime>>::empty());
        }
    }
    let r = Data { columns: headers, index, data };
    assert(r.data_view() =~= readings(sheet));
    assert(r.column_view() =~= columns(sheet));
    Ok(r)
}

} // verus!
