//! A small example document: a name, a rounded value, two dates and a yes/no flag.

use vstd::prelude::*;
use crate::cell::{cell_string, Cell, Date, Sheet};
use crate::error::ImportError;
use crate::fields::{at, date_field, date_value, drop_sentinel, number_field, number_value, round_to_i64, rounded, row_wf, saturated, string_field, without_sentinel};
use crate::header::{header_views, resolve, resolves, HeaderTable};
use crate::records::{first_fault, import_list_result, faults, header_texts, resolved_map, lemma_first_fault_step, lemma_resolve_failed, lemma_resolve_succeeded, nat_map, read_headers, row_cells, rows_until};
use crate::text::{trim, trimmed};

verus! {

/// The row that holds the headers.
pub const HEADER_ROW: usize = 0;

/// The first row of data.
pub const FIRST_ROW: usize = 1;

/// Number of canonical columns.
pub const COLUMNS: usize = 5;

pub const NAME: usize = 0;
pub const VALUE: usize = 1;
pub const SOME_DATE: usize = 2;
pub const WEIRD_DATE: usize = 3;
pub const SOME_ENUM: usize = 4;

/// A yes or no answer.
#[derive(Clone, Copy, Debug, PartialEq, Eq, Structural)]
pub enum SomeEnum {
    Yes,
    No,
}

/// What the flag cell at `i` reads as: its text, trimmed, `y` or `n`.
pub open spec fn yes_no(row: Seq<Cell>, i: int) -> Option<SomeEnum> {
    let t = match cell_string(at(row, i)) {
        Some(s) => trimmed(s),
        None => Seq::empty(),
    };
    if t == "y"@ {
        Some(SomeEnum::Yes)
    } else if t == "n"@ {
        Some(SomeEnum::No)
    } else {
        None
    }
}

fn read_yes_no(row: &Vec<Cell>, i: usize) -> (r: Option<SomeEnum>)
    ensures
        r == yes_no(row@, i as int),
{
    let t = match string_field(row, i) {
        Some(s) => trim(s.as_str()),
        None => String::new(),
    };
    proof {
        if cell_string(at(row@, i as int)) is None {
            assert(t@ =~= Seq::<char>::empty());
        }
    }
    if t == String::from_str("y") {
        Some(SomeEnum::Yes)
    } else if t == String::from_str("n") {
        Some(SomeEnum::No)
    } else {
        None
    }
}

/// One row of the example document; a weird date of `9999-12-31` reads as none.
#[derive(Debug)]
pub struct Row {
    pub name: Option<String>,
    pub value: i64,
    pub some_date: Date,
    pub weird_date: Option<Date>,
    pub some_enum: SomeEnum,
}

/// Canonical column names, by column number.
pub open spec fn names() -> Seq<Seq<char>> {
    seq!["Name"@, "Value"@, "SomeDate"@, "WeirdDate"@, "SomeEnum"@]
}

/// Header spellings, lower-case and trimmed, and the column each names.
pub open spec fn aliases() -> Seq<(Seq<char>, nat)> {
    seq![
        ("name"@, 0),
        ("value"@, 1),
        ("somedate"@, 2),
        ("weirddate"@, 3),
        ("someenum"@, 4),
    ]
}

/// The header table of this document.
#[verifier::rlimit(50)]
pub fn table() -> (t: HeaderTable)
    ensures
        t.wf(),
        t.alias_view() == aliases(),
        t.name_view() == names(),
{
    let mut column_names: Vec<String> = Vec::new();
    column_names.push(String::from_str("Name"));
    column_names.push(String::from_str("Value"));
    column_names.push(String::from_str("SomeDate"));
    column_names.push(String::from_str("WeirdDate"));
    column_names.push(String::from_str("SomeEnum"));
    let mut spellings: Vec<(String, usize)> = Vec::new();
    spellings.push((String::from_str("name"), NAME));
    spellings.push((String::from_str("value"), VALUE));
    spellings.push((String::from_str("somedate"), SOME_DATE));
    spellings.push((String::from_str("weirddate"), WEIRD_DATE));
    spellings.push((String::from_str("someenum"), SOME_ENUM));
    let t = HeaderTable { names: column_names, aliases: spellings };
    assert(t.alias_view() =~= aliases());
    assert(t.name_view() =~= names());
    t
}

/// Resolves a header row of this document to the position of each column.
pub fn get_column_map(headers: Vec<String>) -> (r: Result<Vec<usize>, ImportError>)
    ensures
        resolves(aliases(), names(), header_views(headers@), r),
{
    let t = table();
    resolve(&t, &headers)
}

/// The first cell of a row that cannot be read, as column label and reason.
pub open spec fn row_fault(m: Seq<nat>, row: Seq<Cell>) -> Option<(Seq<char>, Seq<char>)> {
    if number_value(row, m[VALUE as int] as int) is None {
        Some(("value"@, "Cell has no value"@))
    } else if date_value(row, m[SOME_DATE as int] as int) is None {
        Some(("some_date"@, "Cell has no value"@))
    } else if !(yes_no(row, m[SOME_ENUM as int] as int) is Some) {
        Some(("some_enum"@, "Unknown value in enum"@))
    } else {
        None
    }
}

/// The record `v` holds what row `row` holds, read through the column map `m`.
pub open spec fn row_fits(v: Row, m: Seq<nat>, row: Seq<Cell>) -> bool {
    &&& match cell_string(at(row, m[NAME as int] as int)) { Some(s) => v.name matches Some(x) && x@ == trimmed(s), None => v.name is None }
    &&& v.value == saturated(rounded(number_value(row, m[VALUE as int] as int)->Some_0.mantissa as int, number_value(row, m[VALUE as int] as int)->Some_0.scale as nat))
    &&& Some(v.some_date) == date_value(row, m[SOME_DATE as int] as int)
    &&& v.weird_date == without_sentinel(date_value(row, m[WEIRD_DATE as int] as int))
    &&& Some(v.some_enum) == yes_no(row, m[SOME_ENUM as int] as int)
}

fn value_error(row_number: usize, label: &str, reason: &str) -> (e: ImportError)
    ensures
        e matches ImportError::ValueError(n, l, r) && n == row_number && l@ == label@ && r@ == reason@,
{
    ImportError::ValueError(row_number, String::from_str(label), String::from_str(reason))
}

/// Transforms one data row into a record; the first cell that cannot be read fails it.
#[verifier::rlimit(30)]
pub fn transform_row(column_map: &Vec<usize>, row: &Vec<Cell>, row_number: usize) -> (r: Result<Row, ImportError>)
    requires
        column_map@.len() == COLUMNS,
        row_wf(row@),
    ensures
        match row_fault(nat_map(column_map@), row@) {
            Some(f) => r matches Err(ImportError::ValueError(n, l, msg)) && n == row_number && l@ == f.0 && msg@ == f.1,
            None => r matches Ok(v) && row_fits(v, nat_map(column_map@), row@),
        },
{
    let name = match string_field(row, column_map[NAME]) {
        Some(s) => Some(trim(s.as_str())),
        None => None,
    };
    let value = match number_field(row, column_map[VALUE]) {
        Some(x) => round_to_i64(x),
        None => return Err(value_error(row_number, "value", "Cell has no value")),
    };
    let some_date = match date_field(row, column_map[SOME_DATE]) {
        Some(x) => x,
        None => return Err(value_error(row_number, "some_date", "Cell has no value")),
    };
    let weird_date = drop_sentinel(date_field(row, column_map[WEIRD_DATE]));
    let some_enum = match read_yes_no(row, column_map[SOME_ENUM]) {
        Some(x) => x,
        None => return Err(value_error(row_number, "some_enum", "Unknown value in enum")),
    };
    Ok(Row { name, value, some_date, weird_date, some_enum })
}

/// A row that ends the data.
pub open spec fn stop() -> spec_fn(Seq<nat>, Seq<Cell>) -> bool {
    |m: Seq<nat>, row: Seq<Cell>| false
}

/// How a row fails, as `row_fault` says.
pub open spec fn fault() -> spec_fn(Seq<nat>, Seq<Cell>) -> Option<(Seq<char>, Seq<char>)> {
    |m: Seq<nat>, row: Seq<Cell>| row_fault(m, row)
}

/// How a record fits its row, as `row_fits` says.
pub open spec fn fits() -> spec_fn(Row, Seq<nat>, Seq<Cell>) -> bool {
    |v: Row, m: Seq<nat>, row: Seq<Cell>| row_fits(v, m, row)
}

/// Imports the example document, its rows in order.
#[verifier::rlimit(30)]
pub fn run(sheet: &Sheet) -> (r: Result<Vec<Row>, ImportError>)
    requires
        sheet.wf(),
    ensures
        import_list_result(sheet, HEADER_ROW as nat, FIRST_ROW as nat, aliases(), names(), stop(), fault(), fits(), r),
{
    let headers = read_headers(sheet, HEADER_ROW);
    let t = table();
    let res = resolve(&t, &headers);
    proof {
        if res is Err {
            lemma_resolve_failed(aliases(), names(), header_views(headers@), res);
        } else {
            lemma_resolve_succeeded(aliases(), names(), header_views(headers@), res);
        }
    }
    let column_map = match res {
        Ok(m) => m,
        Err(e) => return Err(e),
    };
    let ghost m = nat_map(column_map@);
    let ghost n = rows_until(sheet, FIRST_ROW as nat, m, stop());
    let ghost fs = faults(sheet, FIRST_ROW as nat, m, fault(), n);
    let mut out: Vec<Row> = Vec::new();
    let mut i: usize = FIRST_ROW;
    assert(fs.take(0) =~= Seq::<Option<(Seq<char>, Seq<char>)>>::empty());
    loop
        invariant
            sheet.wf(),
            column_map@.len() == COLUMNS,
            m == nat_map(column_map@),
            n == rows_until(sheet, FIRST_ROW as nat, m, stop()),
            fs == faults(sheet, FIRST_ROW as nat, m, fault(), n),
            FIRST_ROW <= i,
            i <= sheet.rows@.len() || i == FIRST_ROW,
            n == (i - FIRST_ROW) + rows_until(sheet, i as nat, m, stop()),
            out@.len() == i - FIRST_ROW,
            first_fault(fs.take(i - FIRST_ROW)) is None,
            forall|k: int| 0 <= k < out@.len() ==> fits()(#[trigger] out@[k], m, row_cells(sheet, FIRST_ROW + k)),
            resolved_map(aliases(), names(), header_texts(sheet, HEADER_ROW as int)) == Some(m),
        ensures
            rows_until(sheet, i as nat, m, stop()) == 0,
            out@.len() == i - FIRST_ROW,
            first_fault(fs.take(i - FIRST_ROW)) is None,
            forall|k: int| 0 <= k < out@.len() ==> fits()(#[trigger] out@[k], m, row_cells(sheet, FIRST_ROW + k)),
            resolved_map(aliases(), names(), header_texts(sheet, HEADER_ROW as int)) == Some(m),
        decreases sheet.rows@.len() - i,
    {
        if i >= sheet.rows.len() {
            break;
        }
        assert(row_wf(sheet.rows@[i as int]@)) by {
            assert forall|c: int| 0 <= c < sheet.rows@[i as int]@.len() implies (#[trigger] sheet.rows@[i as int]@[c]).wf() by {
                assert(sheet.rows@[i as int]@[c] == sheet.rows@[i as int]@[c]);
            }
        }
        assert(row_cells(sheet, i as int) == sheet.rows@[i as int]@);
        proof {
            lemma_first_fault_step(fs, i - FIRST_ROW);
        }
        let ghost k = i - FIRST_ROW;
        assert(fs[k] == row_fault(m, sheet.rows@[i as int]@));
        let rec = match transform_row(&column_map, &sheet.rows[i], i) {
            Ok(v) => v,
            Err(e) => {
                assert(first_fault(fs) == Some(k as nat));
                let ghost f = row_fault(m, sheet.rows@[i as int]@)->Some_0;
                assert(fs[k] == Some(f));
                assert(e matches ImportError::ValueError(n, l, msg) && n == FIRST_ROW + k && f == (l@, msg@));
                assert(FIRST_ROW as nat + k == i);
                return Err(e);
            },
        };
        out.push(rec);
        i = i + 1;
    }
    assert(fs.take(out@.len() as int) =~= fs);
    Ok(out)
}

} // verus!
