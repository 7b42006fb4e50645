//! The Netze OÖ layout: one meter point, named by the file, readings from
//! row 2 on with the date in column 3, the time in column 4 and the reading
//! in column 5.

use vstd::prelude::*;
use crate::cell::{cell_date, cell_time, Date, DateTime, Sheet, Time};
use crate::decimal::Decimal;
use crate::error::ImportError;
use crate::meterpoint_value::{
    first_unread, lemma_first_unread_step, read_row_readings, row_readings, series_result, Data,
};
use crate::pattern::{capture_group, regex_group};
use crate::text::{chars_of, is_alnum, string_of, to_upper, trim_chars, trimmed, upper_of};

verus! {

/// Length of a meter point identifier.
pub const METERPOINT_LENGTH: usize = 33;

/// What `std::path::Path::file_name` gives for the path `p`: its last
/// component, if it names a file.
pub uninterp spec fn file_name_of(p: Seq<char>) -> Option<Seq<char>>;

/// Relies on `std::path::Path::file_name`: the final component of a path,
/// `None` where the path ends in `..` or has no component. A path made from
/// text always converts back to text.
#[verifier::external_body]
fn file_name(p: &str) -> (r: Option<String>)
    ensures
        r matches Some(n) ==> file_name_of(p@) == Some(n@),
        r is None <==> file_name_of(p@) is None,
{
    match std::path::Path::new(p).file_name() {
        Some(n) => match n.to_str() {
            Some(t) => Some(t.to_string()),
            None => None,
        },
        None => None,
    }
}

/// The file name pattern: `LASTPROFIL`, an optional separator, then the meter
/// point (two letters and 31 letters or digits), anything, and `.XLSX`.
pub open spec fn label_pattern() -> Seq<char> {
    "^LASTPROFIL[-\\s]?([A-Z]{2}[A-Z0-9]{31}).*\\.XLSX$"@
}

/// The meter point that the file name at `path` carries, or why there is none:
/// the upper-cased, trimmed file name is matched against `label_pattern`;
/// failing that, the text between `LASTPROFIL` and `.XLSX`, trimmed and
/// without anything but ASCII letters and digits, must be 33 characters long.
pub open spec fn meterpoint_of(path: Seq<char>) -> Result<Seq<char>, Seq<char>> {
    match file_name_of(path) {
        None => Err("path has no filename"@),
        Some(n) => {
            let f = upper_of(trimmed(n));
            match regex_group(label_pattern(), f, 1) {
                Some(m) => Ok(m),
                None => if !(f.len() >= 10 && f.take(10) == "LASTPROFIL"@) {
                    Err("filename has no prefix lastprofil"@)
                } else if !(f.len() >= 15 && f.skip(f.len() - 5) == ".XLSX"@) {
                    Err("filename has no suffix xlsx"@)
                } else {
                    let mp = trimmed(f.subrange(10, f.len() - 5)).filter(|c: char| is_alnum(c));
                    if mp.len() != METERPOINT_LENGTH {
                        Err("could not get meterpoint from filename '"@ + path + "'"@)
                    } else {
                        Ok(mp)
                    }
                },
            }
        },
    }
}

fn is_alnum_char(c: char) -> (b: bool)
    ensures
        b == is_alnum(c),
{
    ('0' <= c && c <= '9') || ('a' <= c && c <= 'z') || ('A' <= c && c <= 'Z')
}

fn slice_string(v: &Vec<char>, from: usize, to: usize) -> (r: String)
    requires
        from <= to <= v@.len(),
    ensures
        r@ == v@.subrange(from as int, to as int),
{
    let mut out: Vec<char> = Vec::new();
    let mut k: usize = from;
    while k < to
        invariant
            from <= k <= to <= v@.len(),
            out@ == v@.subrange(from as int, k as int),
        decreases to - k,
    {
        out.push(v[k]);
        assert(out@ =~= v@.subrange(from as int, k + 1));
        k = k + 1;
    }
    string_of(&out)
}

/// Extracts the meter point identifier from the name of a Netze OÖ file.
pub fn meterpoint_label(path: String) -> (r: Result<String, String>)
    ensures
        match meterpoint_of(path@) {
            Ok(m) => r matches Ok(x) && x@ == m,
            Err(e) => r matches Err(x) && x@ == e,
        },
{
    let name = match file_name(path.as_str()) {
        Some(n) => n,
        None => return Err(String::from_str("path has no filename")),
    };
    let t = crate::text::trim(name.as_str());
    let f = to_upper(t.as_str());
    if let Some(m) = capture_group(
        "^LASTPROFIL[-\\s]?([A-Z]{2}[A-Z0-9]{31}).*\\.XLSX$",
        f.as_str(),
        1,
    ) {
        return Ok(m);
    }
    let fc = chars_of(f.as_str());
    let len = fc.len();
    if len < 10 || slice_string(&fc, 0, 10) != String::from_str("LASTPROFIL") {
        proof {
            if fc@.len() >= 10 {
                assert(fc@.subrange(0, 10) =~= fc@.take(10));
            }
        }
        return Err(String::from_str("filename has no prefix lastprofil"));
    }
    assert(fc@.subrange(0, 10) =~= fc@.take(10));
    if len < 15 || slice_string(&fc, len - 5, len) != String::from_str(".XLSX") {
        proof {
            if fc@.len() >= 15 {
                assert(fc@.subrange(len - 5, len as int) =~= fc@.skip(len - 5));
            }
        }
        return Err(String::from_str("filename has no suffix xlsx"));
    }
    assert(fc@.subrange(len - 5, len as int) =~= fc@.skip(len - 5));
    let mut middle: Vec<char> = Vec::new();
    let mut k: usize = 10;
    while k < len - 5
        invariant
            10 <= k <= len - 5,
            len == fc@.len() >= 15,
            middle@ == fc@.subrange(10, k as int),
        decreases len - 5 - k,
    {
        middle.push(fc[k]);
        assert(middle@ =~= fc@.subrange(10, k + 1));
        k = k + 1;
    }
    let core = trim_chars(&middle);
    let mut mp: Vec<char> = Vec::new();
    let mut k: usize = 0;
    let ghost pred = |c: char| is_alnum(c);
    assert(core@.take(0) =~= Seq::<char>::empty());
    while k < core.len()
        invariant
            k <= core@.len(),
            pred == (|c: char| is_alnum(c)),
            mp@ == core@.take(k as int).filter(pred),
        decreases core@.len() - k,
    {
        proof {
            core@.take(k as int).lemma_filter_push(core@[k as int], pred);
            assert(core@.take(k + 1) =~= core@.take(k as int).push(core@[k as int]));
        }
        if is_alnum_char(core[k]) {
            mp.push(core[k]);
        }
        k = k + 1;
    }
    assert(core@.take(core@.len() as int) =~= core@);
    if mp.len() != METERPOINT_LENGTH {
        let mut msg = String::from_str("could not get meterpoint from filename '");
        msg.append(path.as_str());
        msg.append("'");
        return Err(msg);
    }
    Ok(string_of(&mp))
}

pub open spec fn data_rows(s: &Sheet) -> nat {
    if s.rows@.len() > 2 {
        (s.rows@.len() - 2) as nat
    } else {
        0
    }
}

pub open spec fn cell_date_at(s: &Sheet, r: int) -> Option<Date> {
    match s.cell(r, 3) {
        Some(c) => cell_date(c),
        None => None,
    }
}

pub open spec fn cell_time_at(s: &Sheet, r: int) -> Option<Time> {
    match s.cell(r, 4) {
        Some(c) => cell_time(c),
        None => None,
    }
}

/// The date of column 3 at the time of column 4, to the whole second.
pub open spec fn stamp(s: &Sheet, r: int) -> Option<DateTime> {
    match (cell_date_at(s, r), cell_time_at(s, r)) {
        (Some(d), Some(t)) => Some(
            DateTime {
                date: d,
                time: Time { hour: t.hour, minute: t.minute, second: t.second, nanosecond: 0 },
            },
        ),
        _ => None,
    }
}

pub open spec fn stamps(s: &Sheet) -> Seq<Option<DateTime>> {
    Seq::new(data_rows(s), |i: int| stamp(s, 2 + i))
}

pub open spec fn reasons(s: &Sheet) -> Seq<Seq<char>> {
    Seq::new(
        data_rows(s),
        |i: int|
            if cell_date_at(s, 2 + i) is None {
                "could not parse date"@
            } else {
                "could not parse time"@
            },
    )
}

pub open spec fn readings(s: &Sheet) -> Seq<Seq<Option<Decimal>>> {
    Seq::new(data_rows(s), |i: int| row_readings(s, 2 + i, 5, 1, false))
}

/// Imports a sheet of the Netze OÖ layout; the series is named by the meter
/// point in the file name at `path`.
pub fn run(sheet: &Sheet, path: String) -> (r: Result<Data, ImportError>)
    requires
        sheet.wf(),
    ensures
        match meterpoint_of(path@) {
            Err(e) => r matches Err(ImportError::Error(x)) && x@ == e,
            Ok(m) => series_result(r, seq![m], stamps(sheet), reasons(sheet), readings(sheet), 2),
        },
{
    let ghost pv = path@;
    let meterpoint = match meterpoint_label(path) {
        Ok(m) => m,
        Err(e) => return Err(ImportError::Error(e)),
    };
    let ghost m = meterpoint@;
    let mut headers: Vec<String> = Vec::new();
    headers.push(meterpoint);
    let ghost st = stamps(sheet);
    let mut index: Vec<DateTime> = Vec::new();
    let mut data: Vec<Vec<Option<Decimal>>> = Vec::new();
    let mut i: usize = 2;
    assert(st.take(0) =~= Seq::<Option<DateTime>>::empty());
    while i < sheet.rows.len()
        invariant
            sheet.wf(),
            st == stamps(sheet),
            pv == path@,
            meterpoint_of(pv) == Ok::<Seq<char>, Seq<char>>(m),
            2 <= i,
            i <= sheet.rows@.len() || i == 2,
            index@.len() == i - 2 && data@.len() == i - 2,
            first_unread(st.take(i - 2)) is None,
            forall|k: int| 0 <= k < index@.len() ==> st[k] == Some(#[trigger] index@[k]),
            forall|k: int|
                0 <= k < data@.len() ==> (#[trigger] data@[k])@ == readings(sheet)[k],
        decreases sheet.rows@.len() - i,
    {
        proof {
            lemma_first_unread_step(st, i - 2);
        }
        let date = match sheet.get_value(i, 3) {
            Some(c) => c.as_date(),
            None => None,
        };
        let date = match date {
            Some(d) => d,
            None => {
                assert(st[i - 2] is None);
                return Err(
                    ImportError::ValueError(
                        i,
                        String::from_str("Timestamp"),
                        String::from_str("could not parse date"),
                    ),
                );
            },
        };
        let time = match sheet.get_value(i, 4) {
            Some(c) => c.as_time(),
            None => None,
        };
        let time = match time {
            Some(t) => t,
            None => {
                assert(st[i - 2] is None);
                return Err(
                    ImportError::ValueError(
                        i,
                        String::from_str("Timestamp"),
                        String::from_str("could not parse time"),
                    ),
                );
            },
        };
        let w = DateTime {
            date,
            time: Time { hour: time.hour, minute: time.minute, second: time.second, nanosecond: 0 },
        };
        assert(st[i - 2] == Some(w));
        index.push(w);
        let row = read_row_readings(sheet, i, 5, 1, false);
        data.push(row);
        i = i + 1;
    }
    proof {
        if sheet.rows@.len() > 2 {
            assert(st.take(i - 2) =~= st);
        } else {
            assert(st =~= Seq::<Option<DateTime>>::empty());
        }
    }
    let r = Data { columns: headers, index, data };
    assert(r.data_view() =~= readings(sheet));
    assert(r.column_view() =~= seq![m]);
    Ok(r)
}

} // verus!
