//! Interval meter readings: recognising which vendor layout a sheet has, and
//! turning it into one table of timestamped series.

use vstd::prelude::*;
use crate::cell::{cell_number, cell_string, cell_text, Cell, DateTime, Sheet};
use crate::decimal::{quarter_of, Decimal};
use crate::error::ImportError;
use crate::text::{trim, trimmed};

pub mod myelectric;
pub mod netze_noe;
pub mod netze_ooe;
pub mod wiener_netze;

verus! {

/// A table of series: one label per column, one timestamp per row, and per
/// row one optional reading per column.
pub struct Data {
    pub columns: Vec<String>,
    pub index: Vec<DateTime>,
    pub data: Vec<Vec<Option<Decimal>>>,
}

impl Data {
    pub open spec fn column_view(&self) -> Seq<Seq<char>> {
        self.columns@.map_values(|s: String| s@)
    }

    pub open spec fn data_view(&self) -> Seq<Seq<Option<Decimal>>> {
        self.data@.map_values(|r: Vec<Option<Decimal>>| r@)
    }

    /// One row of readings per timestamp, one reading per column.
    pub open spec fn wf(&self) -> bool {
        &&& self.index@.len() == self.data@.len()
        &&& forall|i: int|
            0 <= i < self.data@.len() ==> (#[trigger] self.data@[i])@.len() == self.columns@.len()
    }
}

/// The vendor layouts of interval reading files.
#[derive(Clone, Copy, Debug, PartialEq, Eq, Structural)]
pub enum Schema {
    MyElectric,
    WienerNetze,
    NetzeOoe,
    NetzeNoe,
    Unknown,
}

/// The cell at `(r, c)` exists and reads `label` once trimmed.
pub open spec fn probe_is(s: &Sheet, r: int, c: int, label: Seq<char>) -> bool {
    s.cell(r, c) matches Some(x) && trimmed(cell_text(x)) == label
}

/// Position of the first row whose timestamp could not be read.
pub open spec fn first_unread(stamps: Seq<Option<DateTime>>) -> Option<nat>
    decreases stamps.len(),
{
    if stamps.len() == 0 {
        None
    } else {
        match first_unread(stamps.drop_last()) {
            Some(i) => Some(i),
            None => if stamps.last() is None {
                Some((stamps.len() - 1) as nat)
            } else {
                None
            },
        }
    }
}

/// What importing a layout gives, from its series labels and, for each data
/// row in order, its timestamp (if readable), the reason it is not, and its
/// readings; `first_row` is the sheet row of the first data row. The first
/// unreadable timestamp fails the whole import; else every row is kept.
pub open spec fn series_result(
    r: Result<Data, ImportError>,
    columns: Seq<Seq<char>>,
    stamps: Seq<Option<DateTime>>,
    reasons: Seq<Seq<char>>,
    readings: Seq<Seq<Option<Decimal>>>,
    first_row: nat,
) -> bool {
    match first_unread(stamps) {
        Some(i) => r matches Err(ImportError::ValueError(row, label, msg)) && row == first_row + i
            && label@ == "Timestamp"@ && msg@ == reasons[i as int],
        None => r matches Ok(d) && d.wf() && d.column_view() == columns && d.index@.len()
            == stamps.len() && (forall|k: int|
            0 <= k < stamps.len() ==> stamps[k] == Some(#[trigger] d.index@[k]))
            && d.data_view() == readings,
    }
}

pub proof fn lemma_first_unread_step(stamps: Seq<Option<DateTime>>, k: int)
    requires
        0 <= k < stamps.len(),
        first_unread(stamps.take(k)) is None,
    ensures
        stamps[k] is Some ==> first_unread(stamps.take(k + 1)) is None,
        stamps[k] is None ==> first_unread(stamps) == Some(k as nat),
{
    assert(stamps.take(k + 1).drop_last() =~= stamps.take(k));
    if stamps[k] is None {
        lemma_first_unread_prefix(stamps, k + 1);
    }
}

proof fn lemma_first_unread_prefix(stamps: Seq<Option<DateTime>>, i: int)
    requires
        0 <= i <= stamps.len(),
        first_unread(stamps.take(i)) is Some,
    ensures
        first_unread(stamps) == first_unread(stamps.take(i)),
    decreases stamps.len() - i,
{
    if i < stamps.len() {
        assert(stamps.take(i + 1).drop_last() =~= stamps.take(i));
        lemma_first_unread_prefix(stamps, i + 1);
    } else {
        assert(stamps.take(i) =~= stamps);
    }
}

/// The instant without its fraction of a second.
pub open spec fn whole_seconds_of(d: DateTime) -> DateTime {
    DateTime {
        date: d.date,
        time: crate::cell::Time {
            hour: d.time.hour,
            minute: d.time.minute,
            second: d.time.second,
            nanosecond: 0,
        },
    }
}

/// The text of the cell at `(r, c)`, empty where there is none.
pub open spec fn text_at(s: &Sheet, r: int, c: int) -> Seq<char> {
    match s.cell(r, c) {
        Some(x) => cell_text(x),
        None => Seq::empty(),
    }
}

/// The layout a sheet has, by fixed label cells, tried in a fixed order.
pub open spec fn schema_of(s: &Sheet) -> Schema {
    if probe_is(s, 1, 0, "Zeitpunkt"@) && probe_is(s, 1, 1, "Abnahmestelle"@) && probe_is(
        s,
        6,
        1,
        "Zählpunkt"@,
    ) && probe_is(s, 13, 1, "Wirkverbrauch_kWh"@) {
        Schema::WienerNetze
    } else if probe_is(s, 0, 0, "Kopfdaten des Profils"@) && probe_is(s, 6, 0, "Maßeinheit"@)
        && probe_is(s, 6, 1, "kW"@) && probe_is(s, 1, 3, "Ab-Datum"@) && probe_is(
        s,
        1,
        4,
        "Ab-Zeit"@,
    ) && probe_is(s, 1, 5, "Profilwert"@) {
        Schema::NetzeOoe
    } else if probe_is(s, 0, 0, "Timestamp"@) {
        Schema::MyElectric
    } else if probe_is(s, 0, 0, "Werte in kW"@) {
        Schema::NetzeNoe
    } else {
        Schema::Unknown
    }
}

/// Whether the cell at `(r, c)` exists and reads `label` once trimmed.
pub fn probe(s: &Sheet, r: usize, c: usize, label: &str) -> (b: bool)
    requires
        s.wf(),
    ensures
        b == probe_is(s, r as int, c as int, label@),
{
    match s.get_value(r, c) {
        Some(x) => {
            let t = x.text();
            let t = trim(t.as_str());
            t == String::from_str(label)
        },
        None => false,
    }
}

/// Recognises the layout of an interval reading sheet.
pub fn detect_schema(sheet: &Sheet) -> (r: Schema)
    requires
        sheet.wf(),
    ensures
        r == schema_of(sheet),
{
    if probe(sheet, 1, 0, "Zeitpunkt") && probe(sheet, 1, 1, "Abnahmestelle") && probe(
        sheet,
        6,
        1,
        "Zählpunkt",
    ) && probe(sheet, 13, 1, "Wirkverbrauch_kWh") {
        return Schema::WienerNetze;
    }
    if probe(sheet, 0, 0, "Kopfdaten des Profils") && probe(sheet, 6, 0, "Maßeinheit") && probe(
        sheet,
        6,
        1,
        "kW",
    ) && probe(sheet, 1, 3, "Ab-Datum") && probe(sheet, 1, 4, "Ab-Zeit") && probe(
        sheet,
        1,
        5,
        "Profilwert",
    ) {
        return Schema::NetzeOoe;
    }
    if probe(sheet, 0, 0, "Timestamp") {
        return Schema::MyElectric;
    }
    if probe(sheet, 0, 0, "Werte in kW") {
        return Schema::NetzeNoe;
    }
    Schema::Unknown
}

/// The label a header cell gives a series: its text, cut to `max` characters
/// where `max` is given; empty for a cell that holds no text.
pub open spec fn header_label(c: Option<Cell>, max: Option<nat>) -> Seq<char> {
    match c {
        Some(x) => match cell_string(x) {
            Some(t) => match max {
                Some(m) => if t.len() > m {
                    t.take(m as int)
                } else {
                    t
                },
                None => t,
            },
            None => Seq::empty(),
        },
        None => Seq::empty(),
    }
}

/// Number of cells in row `r`, or 0 where the sheet has no such row.
pub open spec fn row_width(s: &Sheet, r: int) -> nat {
    if 0 <= r < s.rows@.len() {
        s.rows@[r]@.len()
    } else {
        0
    }
}

/// The series labels of header row `r`, from column `skip` on.
pub open spec fn header_labels(s: &Sheet, r: int, skip: nat, max: Option<nat>) -> Seq<Seq<char>> {
    let n = if row_width(s, r) > skip {
        (row_width(s, r) - skip) as nat
    } else {
        0
    };
    Seq::new(n, |j: int| header_label(s.cell(r, skip + j), max))
}

/// The reading of one cell: its number, divided by four where `quarter` holds;
/// no value for a cell that holds no number or is not there.
pub open spec fn reading(c: Option<Cell>, quarter: bool) -> Option<Decimal> {
    match c {
        Some(x) => match cell_number(x) {
            Some(d) => if quarter {
                Some(quarter_of(d))
            } else {
                Some(d)
            },
            None => None,
        },
        None => None,
    }
}

/// The `n` readings of row `r`, from column `skip` on.
pub open spec fn row_readings(s: &Sheet, r: int, skip: nat, n: nat, quarter: bool) -> Seq<
    Option<Decimal>,
> {
    Seq::new(n, |j: int| reading(s.cell(r, skip + j), quarter))
}

/// Reads the series labels of header row `r`, from column `skip` on.
pub fn read_header_labels(s: &Sheet, r: usize, skip: usize, max: Option<usize>) -> (v: Vec<
    String,
>)
    ensures
        v@.map_values(|x: String| x@) == header_labels(
            s,
            r as int,
            skip as nat,
            match max {
                Some(m) => Some(m as nat),
                None => None,
            },
        ),
{
    let ghost mx = match max {
        Some(m) => Some(m as nat),
        None => None::<nat>,
    };
    let mut v: Vec<String> = Vec::new();
    if r >= s.rows.len() || s.rows[r].len() <= skip {
        assert(v@.map_values(|x: String| x@) =~= header_labels(s, r as int, skip as nat, mx));
        return v;
    }
    let w = s.rows[r].len();
    let mut j: usize = skip;
    while j < w
        invariant
            r < s.rows@.len(),
            w == s.rows@[r as int]@.len(),
            skip <= j <= w,
            mx == match max {
                Some(m) => Some(m as nat),
                None => None::<nat>,
            },
            v@.len() == j - skip,
            forall|k: int|
                0 <= k < v@.len() ==> (#[trigger] v@[k])@ == header_label(
                    s.cell(r as int, skip + k),
                    mx,
                ),
        decreases w - j,
    {
        let label = match s.rows[r][j].get_string() {
            Some(t) => match max {
                Some(m) => {
                    let cs = crate::text::chars_of(t.as_str());
                    if cs.len() > m {
                        let mut cut: Vec<char> = Vec::new();
                        let mut k: usize = 0;
                        while k < m
                            invariant
                                k <= m < cs@.len(),
                                cut@ == cs@.take(k as int),
                            decreases m - k,
                        {
                            cut.push(cs[k]);
                            assert(cut@ =~= cs@.take(k + 1));
                            k = k + 1;
                        }
                        crate::text::string_of(&cut)
                    } else {
                        t
                    }
                },
                None => t,
            },
            None => String::new(),
        };
        assert(s.cell(r as int, skip + (j - skip)) == Some(s.rows@[r as int]@[j as int]));
        assert(label@ == header_label(Some(s.rows@[r as int]@[j as int]), mx));
        v.push(label);
        j = j + 1;
    }
    assert(v@.map_values(|x: String| x@) =~= header_labels(s, r as int, skip as nat, mx));
    v
}

/// Reads the `n` readings of row `r`, from column `skip` on.
pub fn read_row_readings(s: &Sheet, r: usize, skip: usize, n: usize, quarter: bool) -> (v: Vec<
    Option<Decimal>,
>)
    requires
        s.wf(),
        skip + n <= usize::MAX,
    ensures
        v@ == row_readings(s, r as int, skip as nat, n as nat, quarter),
{
    let mut v: Vec<Option<Decimal>> = Vec::new();
    let mut j: usize = 0;
    while j < n
        invariant
            s.wf(),
            skip + n <= usize::MAX,
            j <= n,
            v@ == row_readings(s, r as int, skip as nat, j as nat, quarter),
        decreases n - j,
    {
        let x = match s.get_value(r, skip + j) {
            Some(c) => match c.get_float() {
                Some(d) => if quarter {
                    Some(d.quarter())
                } else {
                    Some(d)
                },
                None => None,
            },
            None => None,
        };
        assert(x == reading(s.cell(r as int, skip + j), quarter));
        v.push(x);
        assert(v@ =~= row_readings(s, r as int, skip as nat, (j + 1) as nat, quarter));
        j = j + 1;
    }
    v
}

/// What importing an interval reading sheet gives: the layout's own import,
/// by the layout `schema_of` recognises; a sheet of no known layout fails.
pub open spec fn import_result(sheet: &Sheet, path: Seq<char>, r: Result<Data, ImportError>) -> bool {
    match schema_of(sheet) {
        Schema::WienerNetze => series_result(
            r,
            wiener_netze::columns(sheet),
            wiener_netze::stamps(sheet),
            wiener_netze::reasons(sheet),
            wiener_netze::readings(sheet),
            14,
        ),
        Schema::MyElectric => series_result(
            r,
            myelectric::columns(sheet),
            myelectric::stamps(sheet),
            myelectric::reasons(sheet),
            myelectric::readings(sheet),
            1,
        ),
        Schema::NetzeOoe => match netze_ooe::meterpoint_of(path) {
            Err(e) => r matches Err(ImportError::Error(x)) && x@ == e,
            Ok(m) => series_result(
                r,
                seq![m],
                netze_ooe::stamps(sheet),
                netze_ooe::reasons(sheet),
                netze_ooe::readings(sheet),
                2,
            ),
        },
        Schema::NetzeNoe => series_result(
            r,
            netze_noe::columns(sheet),
            netze_noe::stamps(sheet),
            netze_noe::reasons(sheet),
            netze_noe::readings(sheet),
            1,
        ),
        Schema::Unknown => r matches Err(ImportError::Error(x)) && x@
            == "Could not detect schema for meterpoint_value import"@,
    }
}

/// Imports an interval reading sheet, read from the file at `path`: detects
/// its layout and hands it to that layout's import. Every table it returns
/// has one row of readings per timestamp and one reading per column.
pub fn run(sheet: &Sheet, path: String) -> (r: Result<Data, ImportError>)
    requires
        sheet.wf(),
    ensures
        import_result(sheet, path@, r),
        r matches Ok(d) ==> d.wf(),
{
    match detect_schema(sheet) {
        Schema::WienerNetze => wiener_netze::run(sheet),
        Schema::MyElectric => myelectric::run(sheet),
        Schema::NetzeOoe => netze_ooe::run(sheet, path),
        Schema::NetzeNoe => netze_noe::run(sheet),
        Schema::Unknown => Err(
            ImportError::Error(
                String::from_str("Could not detect schema for meterpoint_value import"),
            ),
        ),
    }
}

} // verus!
