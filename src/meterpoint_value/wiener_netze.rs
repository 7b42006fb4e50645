//! The Wiener Netze layout: meter points in row 6 from column 2 on, quarter
//! hour power readings from row 14 on, timestamps in column 0.

use vstd::prelude::*;
use crate::cell::{cell_datetime, DateTime, Sheet};
use crate::decimal::Decimal;
use crate::error::ImportError;
use crate::meterpoint_value::{
    first_unread, header_labels, lemma_first_unread_step, read_header_labels, read_row_readings,
    row_readings, series_result, whole_seconds_of, Data,
};

verus! {

pub open spec fn stamp(s: &Sheet, r: int) -> Option<DateTime> {
    match s.cell(r, 0) {
        Some(c) => match cell_datetime(c) {
            Some(d) => Some(whole_seconds_of(d)),
            None => None,
        },
        None => None,
    }
}

pub open spec fn data_rows(s: &Sheet) -> nat {
    if s.rows@.len() > 14 {
        (s.rows@.len() - 14) as nat
    } else {
        0
    }
}

pub open spec fn columns(s: &Sheet) -> Seq<Seq<char>> {
    header_labels(s, 6, 2, None)
}

pub open spec fn stamps(s: &Sheet) -> Seq<Option<DateTime>> {
    Seq::new(data_rows(s), |i: int| stamp(s, 14 + i))
}

pub open spec fn reasons(s: &Sheet) -> Seq<Seq<char>> {
    Seq::new(data_rows(s), |i: int| "could not parse datetime"@)
}

/// Readings are quarter-hour power, so each is divided by four into energy.
pub open spec fn readings(s: &Sheet) -> Seq<Seq<Option<Decimal>>> {
    Seq::new(data_rows(s), |i: int| row_readings(s, 14 + i, 2, columns(s).len(), true))
}

/// Imports a sheet of the Wiener Netze layout.
pub fn run(sheet: &Sheet) -> (r: Result<Data, ImportError>)
    requires
        sheet.wf(),
    ensures
        series_result(r, columns(sheet), stamps(sheet), reasons(sheet), readings(sheet), 14),
{
    let headers = read_header_labels(sheet, 6, 2, None);
    let n = headers.len();
    assert(headers@.map_values(|x: String| x@).len() == n);
    let w6: usize = if sheet.rows.len() > 6 {
        sheet.rows[6].len()
    } else {
        0
    };
    proof {
        if sheet.rows@.len() > 6 && sheet.rows@[6]@.len() > 2 {
            assert(2 + n == w6);
        } else {
            assert(n == 0);
        }
    }
    let ghost st = stamps(sheet);
    let mut index: Vec<DateTime> = Vec::new();
    let mut data: Vec<Vec<Option<Decimal>>> = Vec::new();
    let mut i: usize = 14;
    assert(st.take(0) =~= Seq::<Option<DateTime>>::empty());
    while i < sheet.rows.len()
        invariant
            sheet.wf(),
            st == stamps(sheet),
            2 + n <= usize::MAX,
            n == columns(sheet).len(),
            14 <= i,
            i <= sheet.rows@.len() || i == 14,
            index@.len() == i - 14 && data@.len() == i - 14,
            first_unread(st.take(i - 14)) is None,
            forall|k: int| 0 <= k < index@.len() ==> st[k] == Some(#[trigger] index@[k]),
            forall|k: int|
                0 <= k < data@.len() ==> (#[trigger] data@[k])@ == readings(sheet)[k],
        decreases sheet.rows@.len() - i,
    {
        proof {
            lemma_first_unread_step(st, i - 14);
        }
        let t = match sheet.rows[i].get(0) {
            Some(c) => c.as_datetime(),
            None => None,
        };
        assert(sheet.rows@[i as int]@.len() > 0 ==> sheet.cell(i as int, 0) == Some(
            sheet.rows@[i as int]@[0],
        ));
        match t {
            Some(d) => {
                let w = d.whole_seconds();
                assert(st[i - 14] == Some(w));
                index.push(w);
                let row = read_row_readings(sheet, i, 2, n, true);
                data.push(row);
            },
            None => {
                assert(st[i - 14] is None);
                return Err(
                    ImportError::ValueError(
                        i,
                        String::from_str("Timestamp"),
                        String::from_str("could not parse datetime"),
                    ),
                );
            },
        }
        i = i + 1;
    }
    proof {
        if sheet.rows@.len() > 14 {
            assert(st.take(i - 14) =~= st);
        } else {
            assert(st =~= Seq::<Option<DateTime>>::empty());
        }
    }
    let r = Data { columns: headers, index, data };
    assert(r.data_view() =~= readings(sheet));
    assert(r.column_view() =~= columns(sheet));
    Ok(r)
}

} // verus!
