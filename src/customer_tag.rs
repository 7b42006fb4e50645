//! Tags attached to customers.

use vstd::prelude::*;
use crate::cell::{Cell, Sheet};
use crate::error::ImportError;
use crate::fields::{row_wf, text_field, text_value};
use crate::grouping::Groups;
use crate::header::{header_views, resolve, resolves, HeaderTable};
use crate::records::{first_fault, import_result, faults, header_texts, resolved_map, lemma_first_fault_step, lemma_resolve_failed, lemma_resolve_succeeded, nat_map, read_headers, row_cells, rows_until};
use crate::text::trimmed;

verus! {

/// The row that holds the headers.
pub const HEADER_ROW: usize = 0;

/// The first row of data.
pub const FIRST_ROW: usize = 1;

/// Number of canonical columns.
pub const COLUMNS: usize = 3;

pub const CUSTOMER_ID: usize = 0;
pub const TAG_ID: usize = 1;
pub const TAG_VALUE: usize = 2;

/// One tag of one customer.
#[derive(Debug)]
pub struct Row {
    pub customer_id: String,
    pub tag_id: String,
    pub tag_value: String,
}

/// Canonical column names, by column number.
pub open spec fn names() -> Seq<Seq<char>> {
    seq!["CustomerId"@, "TagId"@, "TagValue"@]
}

/// Header spellings, lower-case and trimmed, and the column each names.
pub open spec fn aliases() -> Seq<(Seq<char>, nat)> {
    seq![
        ("kunden id"@, 0),
        ("tag id"@, 1),
        ("tag wert"@, 2),
    ]
}

/// The header table of this document.
#[verifier::rlimit(50)]
pub fn table() -> (t: HeaderTable)
    ensures
        t.wf(),
        t.alias_view() == aliases(),
        t.name_view() == names(),
{
    let mut column_names: Vec<String> = Vec::new();
    column_names.push(String::from_str("CustomerId"));
    column_names.push(String::from_str("TagId"));
    column_names.push(String::from_str("TagValue"));
    let mut spellings: Vec<(String, usize)> = Vec::new();
    spellings.push((String::from_str("kunden id"), CUSTOMER_ID));
    spellings.push((String::from_str("tag id"), TAG_ID));
    spellings.push((String::from_str("tag wert"), TAG_VALUE));
    let t = HeaderTable { names: column_names, aliases: spellings };
    assert(t.alias_view() =~= aliases());
    assert(t.name_view() =~= names());
    t
}

/// Resolves a header row of this document to the position of each column.
pub fn get_column_map(headers: Vec<String>) -> (r: Result<Vec<usize>, ImportError>)
    ensures
        resolves(aliases(), names(), header_views(headers@), r),
{
    let t = table();
    resolve(&t, &headers)
}

/// The first cell of a row that cannot be read, as column label and reason.
pub open spec fn row_fault(m: Seq<nat>, row: Seq<Cell>) -> Option<(Seq<char>, Seq<char>)> {
    None
}

/// The record `v` holds what row `row` holds, read through the column map `m`.
pub open spec fn row_fits(v: Row, m: Seq<nat>, row: Seq<Cell>) -> bool {
    &&& v.customer_id@ == text_value(row, m[CUSTOMER_ID as int] as int)
    &&& v.tag_id@ == text_value(row, m[TAG_ID as int] as int)
    &&& v.tag_value@ == text_value(row, m[TAG_VALUE as int] as int)
}

fn value_error(row_number: usize, label: &str, reason: &str) -> (e: ImportError)
    ensures
        e matches ImportError::ValueError(n, l, r) && n == row_number && l@ == label@ && r@ == reason@,
{
    ImportError::ValueError(row_number, String::from_str(label), String::from_str(reason))
}

/// Transforms one data row into a record; the first cell that cannot be read fails it.
#[verifier::rlimit(30)]
pub fn transform_row(column_map: &Vec<usize>, row: &Vec<Cell>, row_number: usize) -> (r: Result<Row, ImportError>)
    requires
        column_map@.len() == COLUMNS,
        row_wf(row@),
    ensures
        match row_fault(nat_map(column_map@), row@) {
            Some(f) => r matches Err(ImportError::ValueError(n, l, msg)) && n == row_number && l@ == f.0 && msg@ == f.1,
            None => r matches Ok(v) && row_fits(v, nat_map(column_map@), row@),
        },
{
    let customer_id = text_field(row, column_map[CUSTOMER_ID]);
    let tag_id = text_field(row, column_map[TAG_ID]);
    let tag_value = text_field(row, column_map[TAG_VALUE]);
    Ok(Row { customer_id, tag_id, tag_value })
}

/// A row that ends the data.
pub open spec fn stop() -> spec_fn(Seq<nat>, Seq<Cell>) -> bool {
    |m: Seq<nat>, row: Seq<Cell>| false
}

/// How a row fails, as `row_fault` says.
pub open spec fn fault() -> spec_fn(Seq<nat>, Seq<Cell>) -> Option<(Seq<char>, Seq<char>)> {
    |m: Seq<nat>, row: Seq<Cell>| row_fault(m, row)
}

/// How a record fits its row, as `row_fits` says.
pub open spec fn fits() -> spec_fn(Row, Seq<nat>, Seq<Cell>) -> bool {
    |v: Row, m: Seq<nat>, row: Seq<Cell>| row_fits(v, m, row)
}

/// The key records are grouped by.
pub open spec fn key() -> spec_fn(Row) -> Seq<char> {
    |v: Row| v.customer_id@
}

/// Imports customer tags, grouped by customer id.
#[verifier::rlimit(30)]
pub fn run(sheet: &Sheet) -> (r: Result<Groups<Row>, ImportError>)
    requires
        sheet.wf(),
    ensures
        import_result(sheet, HEADER_ROW as nat, FIRST_ROW as nat, aliases(), names(), stop(), fault(), fits(), key(), r),
{
    let headers = read_headers(sheet, HEADER_ROW);
    let t = table();
    let res = resolve(&t, &headers);
    proof {
        if res is Err {
            lemma_resolve_failed(aliases(), names(), header_views(headers@), res);
        } else {
            lemma_resolve_succeeded(aliases(), names(), header_views(headers@), res);
        }
    }
    let column_map = match res {
        Ok(m) => m,
        Err(e) => return Err(e),
    };
    let ghost m = nat_map(column_map@);
    let ghost n = rows_until(sheet, FIRST_ROW as nat, m, stop());
    let ghost fs = faults(sheet, FIRST_ROW as nat, m, fault(), n);
    let mut out: Groups<Row> = Groups::new();
    let mut i: usize = FIRST_ROW;
    assert(fs.take(0) =~= Seq::<Option<(Seq<char>, Seq<char>)>>::empty());
    loop
        invariant
            sheet.wf(),
            column_map@.len() == COLUMNS,
            m == nat_map(column_map@),
            n == rows_until(sheet, FIRST_ROW as nat, m, stop()),
            fs == faults(sheet, FIRST_ROW as nat, m, fault(), n),
            FIRST_ROW <= i,
            i <= sheet.rows@.len() || i == FIRST_ROW,
            n == (i - FIRST_ROW) + rows_until(sheet, i as nat, m, stop()),
            out.wf(),
            out.entries@.len() == i - FIRST_ROW,
            first_fault(fs.take(i - FIRST_ROW)) is None,
            forall|k: int| 0 <= k < out.entries@.len() ==> fits()(#[trigger] out.entries@[k].1, m, row_cells(sheet, FIRST_ROW + k)) && out.entries@[k].0 == key()(out.entries@[k].1),
            resolved_map(aliases(), names(), header_texts(sheet, HEADER_ROW as int)) == Some(m),
        ensures
            rows_until(sheet, i as nat, m, stop()) == 0,
            out.wf(),
            out.entries@.len() == i - FIRST_ROW,
            first_fault(fs.take(i - FIRST_ROW)) is None,
            forall|k: int| 0 <= k < out.entries@.len() ==> fits()(#[trigger] out.entries@[k].1, m, row_cells(sheet, FIRST_ROW + k)) && out.entries@[k].0 == key()(out.entries@[k].1),
            resolved_map(aliases(), names(), header_texts(sheet, HEADER_ROW as int)) == Some(m),
        decreases sheet.rows@.len() - i,
    {
        if i >= sheet.rows.len() {
            break;
        }
        assert(row_wf(sheet.rows@[i as int]@)) by {
            assert forall|c: int| 0 <= c < sheet.rows@[i as int]@.len() implies (#[trigger] sheet.rows@[i as int]@[c]).wf() by {
                assert(sheet.rows@[i as int]@[c] == sheet.rows@[i as int]@[c]);
            }
        }
        assert(row_cells(sheet, i as int) == sheet.rows@[i as int]@);
        proof {
            lemma_first_fault_step(fs, i - FIRST_ROW);
        }
        let ghost k = i - FIRST_ROW;
        assert(fs[k] == row_fault(m, sheet.rows@[i as int]@));
        let rec = match transform_row(&column_map, &sheet.rows[i], i) {
            Ok(v) => v,
            Err(e) => {
                assert(first_fault(fs) == Some(k as nat));
                let ghost f = row_fault(m, sheet.rows@[i as int]@)->Some_0;
                assert(fs[k] == Some(f));
                assert(e matches ImportError::ValueError(n, l, msg) && n == FIRST_ROW + k && f == (l@, msg@));
                assert(FIRST_ROW as nat + k == i);
                return Err(e);
            },
        };
        let k = rec.customer_id.clone();
        out.add(k, rec);
        i = i + 1;
    }
    assert(fs.take(out.entries@.len() as int) =~= fs);
    Ok(out)
}

} // verus!
