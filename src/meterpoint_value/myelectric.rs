//! The myElectric layout: meter points in row 0 from column 1 on, readings
//! from row 1 on up to a summary row, timestamps in column 0.

use vstd::prelude::*;
use crate::cell::{cell_datetime, cell_text, DateTime, Sheet};
use crate::decimal::Decimal;
use crate::error::ImportError;
use crate::meterpoint_value::{
    first_unread, header_labels, lemma_first_unread_step, read_header_labels, read_row_readings,
    row_readings, series_result, whole_seconds_of, Data,
};

verus! {

/// Meter point identifiers are cut to this many characters.
pub const LABEL_LENGTH: usize = 33;

/// A row whose first cell reads `Summe` or `Sum` ends the readings.
pub open spec fn is_summary(s: &Sheet, r: int) -> bool {
    s.cell(r, 0) matches Some(c) && (cell_text(c) == "Summe"@ || cell_text(c) == "Sum"@)
}

/// The number of rows from row `r` on before the first summary row.
pub open spec fn rows_before_summary(s: &Sheet, r: nat) -> nat
    decreases s.rows@.len() - r,
{
    if r >= s.rows@.len() {
        0
    } else if is_summary(s, r as int) {
        0
    } else {
        1 + rows_before_summary(s, r + 1)
    }
}

pub open spec fn data_rows(s: &Sheet) -> nat {
    rows_before_summary(s, 1)
}

pub open spec fn stamp(s: &Sheet, r: int) -> Option<DateTime> {
    match s.cell(r, 0) {
        Some(c) => match cell_datetime(c) {
            Some(d) => Some(whole_seconds_of(d)),
            None => None,
        },
        None => None,
    }
}

pub open spec fn columns(s: &Sheet) -> Seq<Seq<char>> {
    header_labels(s, 0, 1, Some(LABEL_LENGTH as nat))
}

pub open spec fn stamps(s: &Sheet) -> Seq<Option<DateTime>> {
    Seq::new(data_rows(s), |i: int| stamp(s, 1 + i))
}

pub open spec fn reasons(s: &Sheet) -> Seq<Seq<char>> {
    Seq::new(data_rows(s), |i: int| "could not parse datetime"@)
}

pub open spec fn readings(s: &Sheet) -> Seq<Seq<Option<Decimal>>> {
    Seq::new(data_rows(s), |i: int| row_readings(s, 1 + i, 1, columns(s).len(), false))
}

fn summary_at(sheet: &Sheet, r: usize) -> (b: bool)
    requires
        sheet.wf(),
    ensures
        b == is_summary(sheet, r as int),
{
    match sheet.get_value(r, 0) {
        Some(c) => {
            let t = c.text();
            t == String::from_str("Summe") || t == String::from_str("Sum")
        },
        None => false,
    }
}

/// Imports a sheet of the myElectric layout.
pub fn run(sheet: &Sheet) -> (r: Result<Data, ImportError>)
    requires
        sheet.wf(),
    ensures
        series_result(r, columns(sheet), stamps(sheet), reasons(sheet), readings(sheet), 1),
{
    let headers = read_header_labels(sheet, 0, 1, Some(LABEL_LENGTH));
    let n = headers.len();
    assert(headers@.map_values(|x: String| x@).len() == n);
    let w0: usize = if sheet.rows.len() > 0 {
        sheet.rows[0].len()
    } else {
        0
    };
    proof {
        if sheet.rows@.len() > 0 && sheet.rows@[0]@.len() > 1 {
            assert(1 + n == w0);
        } else {
            assert(n == 0);
        }
    }
    let ghost st = stamps(sheet);
    let ghost total = data_rows(sheet);
    let mut index: Vec<DateTime> = Vec::new();
    let mut data: Vec<Vec<Option<Decimal>>> = Vec::new();
    let mut i: usize = 1;
    assert(st.take(0) =~= Seq::<Option<DateTime>>::empty());
    loop
        invariant
            sheet.wf(),
            st == stamps(sheet),
            total == data_rows(sheet),
            1 + n <= usize::MAX,
            n == columns(sheet).len(),
            1 <= i,
            i <= sheet.rows@.len() || i == 1,
            total == (i - 1) + rows_before_summary(sheet, i as nat),
            index@.len() == i - 1 && data@.len() == i - 1,
            first_unread(st.take(i - 1)) is None,
            forall|k: int| 0 <= k < index@.len() ==> st[k] == Some(#[trigger] index@[k]),
            forall|k: int|
                0 <= k < data@.len() ==> (#[trigger] data@[k])@ == readings(sheet)[k],
        ensures
            rows_before_summary(sheet, i as nat) == 0,
            index@.len() == i - 1 && data@.len() == i - 1,
            total == (i - 1) + rows_before_summary(sheet, i as nat),
            forall|k: int| 0 <= k < index@.len() ==> st[k] == Some(#[trigger] index@[k]),
            forall|k: int|
                0 <= k < data@.len() ==> (#[trigger] data@[k])@ == readings(sheet)[k],
        decreases sheet.rows@.len() - i,
    {
        if i >= sheet.rows.len() {
            break;
        }
        if summary_at(sheet, i) {
            break;
        }
        assert(i - 1 < total);
        proof {
            lemma_first_unread_step(st, i - 1);
        }
        let t = match sheet.rows[i].get(0) {
            Some(c) => c.as_datetime(),
            None => None,
        };
        assert(sheet.rows@[i as int]@.len() > 0 ==> sheet.cell(i as int, 0) == Some(
            sheet.rows@[i as int]@[0],
        ));
        match t {
            Some(d) => {
                let w = d.whole_seconds();
                assert(st[i - 1] == Some(w));
                index.push(w);
                let row = read_row_readings(sheet, i, 1, n, false);
                data.push(row);
            },
            None => {
                assert(st[i - 1] is None);
                return Err(
                    ImportError::ValueError(
                        i,
                        String::from_str("Timestamp"),
                        String::from_str("could not parse datetime"),
                    ),
                );
            },
        }
        i = i + 1;
    }
    assert(index@.len() == total);
    assert(st.take(index@.len() as int) =~= st);
    let r = Data { columns: headers, index, data };
    assert(r.data_view() =~= readings(sheet));
    assert(r.column_view() =~= columns(sheet));
    Ok(r)
}

} // verus!
