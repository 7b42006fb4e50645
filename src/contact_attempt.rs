//! Contact attempts of the sales team.

use vstd::prelude::*;
use crate::cell::{cell_text, Cell, Date, DateTime, Sheet, Time};
use crate::error::ImportError;
use crate::fields::{at, date_field, date_value, raw_text_field, row_wf, text_field, text_value, time_field, time_value};
use crate::grouping::Groups;
use crate::header::{header_views, resolve, resolves, HeaderTable};
use crate::records::{first_fault, import_result, faults, header_texts, resolved_map, lemma_first_fault_step, lemma_resolve_failed, lemma_resolve_succeeded, nat_map, read_headers, row_cells, rows_until};
use crate::text::trimmed;
use crate::contact_attempt::contact_type::ContactType;
use crate::contact_attempt::rating::Rating;
use crate::contact_attempt::result::Result_;
use crate::contact_attempt::status::Status;

pub mod contact_type;
pub mod rating;
pub mod result;
pub mod status;

verus! {

/// The row that holds the headers.
pub const HEADER_ROW: usize = 0;

/// The first row of data.
pub const FIRST_ROW: usize = 1;

/// Number of canonical columns.
pub const COLUMNS: usize = 9;

pub const CONTACT_TYPE: usize = 0;
pub const CREATED_BY: usize = 1;
pub const FEEDBACK: usize = 2;
pub const PROJECT_CONTACT_ID: usize = 3;
pub const RATING: usize = 4;
pub const RESULT: usize = 5;
pub const RETRY_DATE: usize = 6;
pub const RETRY_TIME: usize = 7;
pub const STATUS: usize = 8;

/// One contact attempt; `retry` is the follow-up date at the follow-up time.
#[derive(Debug)]
pub struct Row {
    pub contact_type: ContactType,
    pub created_by: String,
    pub feedback: String,
    pub project_contact_id: String,
    pub rating: Option<Rating>,
    pub result: Result_,
    pub retry_date: Date,
    pub retry_time: Time,
    pub retry: Option<DateTime>,
    pub status: Status,
}

/// Canonical column names, by column number.
pub open spec fn names() -> Seq<Seq<char>> {
    seq!["ContactType"@, "CreatedBy"@, "Feedback"@, "ProjectContactId"@, "Rating"@, "Result"@, "RetryDate"@, "RetryTime"@, "Status"@]
}

/// Header spellings, lower-case and trimmed, and the column each names.
pub open spec fn aliases() -> Seq<(Seq<char>, nat)> {
    seq![
        ("contacttype"@, 0),
        ("createdby"@, 1),
        ("rückmeldung"@, 2),
        ("projectcontactid"@, 3),
        ("bewertung"@, 4),
        ("ergebnis"@, 5),
        ("wiedervorlage datum"@, 6),
        ("wiedervorlage zeit"@, 7),
        ("status"@, 8),
    ]
}

/// The header table of this document.
#[verifier::rlimit(50)]
pub fn table() -> (t: HeaderTable)
    ensures
        t.wf(),
        t.alias_view() == aliases(),
        t.name_view() == names(),
{
    let mut column_names: Vec<String> = Vec::new();
    column_names.push(String::from_str("ContactType"));
    column_names.push(String::from_str("CreatedBy"));
    column_names.push(String::from_str("Feedback"));
    column_names.push(String::from_str("ProjectContactId"));
    column_names.push(String::from_str("Rating"));
    column_names.push(String::from_str("Result"));
    column_names.push(String::from_str("RetryDate"));
    column_names.push(String::from_str("RetryTime"));
    column_names.push(String::from_str("Status"));
    let mut spellings: Vec<(String, usize)> = Vec::new();
    spellings.push((String::from_str("contacttype"), CONTACT_TYPE));
    spellings.push((String::from_str("createdby"), CREATED_BY));
    spellings.push((String::from_str("rückmeldung"), FEEDBACK));
    spellings.push((String::from_str("projectcontactid"), PROJECT_CONTACT_ID));
    spellings.push((String::from_str("bewertung"), RATING));
    spellings.push((String::from_str("ergebnis"), RESULT));
    spellings.push((String::from_str("wiedervorlage datum"), RETRY_DATE));
    spellings.push((String::from_str("wiedervorlage zeit"), RETRY_TIME));
    spellings.push((String::from_str("status"), STATUS));
    let t = HeaderTable { names: column_names, aliases: spellings };
    assert(t.alias_view() =~= aliases());
    assert(t.name_view() =~= names());
    t
}

/// Resolves a header row of this document to the position of each column.
pub fn get_column_map(headers: Vec<String>) -> (r: Result<Vec<usize>, ImportError>)
    ensures
        resolves(aliases(), names(), header_views(headers@), r),
{
    let t = table();
    resolve(&t, &headers)
}

/// The first cell of a row that cannot be read, as column label and reason.
pub open spec fn row_fault(m: Seq<nat>, row: Seq<Cell>) -> Option<(Seq<char>, Seq<char>)> {
    if ContactType::read(cell_text(at(row, m[CONTACT_TYPE as int] as int))) is None {
        Some(("contactType"@, cell_text(at(row, m[CONTACT_TYPE as int] as int))))
    } else if ContactType::read(cell_text(at(row, m[CONTACT_TYPE as int] as int))) == Some(None::<ContactType>) {
        Some(("contactType"@, "Cell has no value"@))
    } else if Rating::read(cell_text(at(row, m[RATING as int] as int))) is None {
        Some(("Bewertung"@, cell_text(at(row, m[RATING as int] as int))))
    } else if Result_::read(cell_text(at(row, m[RESULT as int] as int))) is None {
        Some(("Ergebnis"@, cell_text(at(row, m[RESULT as int] as int))))
    } else if Result_::read(cell_text(at(row, m[RESULT as int] as int))) == Some(None::<Result_>) {
        Some(("Ergebnis"@, "Cell has no value"@))
    } else if date_value(row, m[RETRY_DATE as int] as int) is None {
        Some(("Wiedervorlage Datum"@, "Cell has no value"@))
    } else if time_value(row, m[RETRY_TIME as int] as int) is None {
        Some(("Wiedervorlage Zeit"@, "Cell has no value"@))
    } else if Status::read(cell_text(at(row, m[STATUS as int] as int))) is None {
        Some(("status"@, cell_text(at(row, m[STATUS as int] as int))))
    } else if Status::read(cell_text(at(row, m[STATUS as int] as int))) == Some(None::<Status>) {
        Some(("status"@, "Cell has no value"@))
    } else {
        None
    }
}

/// The record `v` holds what row `row` holds, read through the column map `m`.
pub open spec fn row_fits(v: Row, m: Seq<nat>, row: Seq<Cell>) -> bool {
    &&& ContactType::read(cell_text(at(row, m[CONTACT_TYPE as int] as int))) == Some(Some(v.contact_type))
    &&& v.created_by@ == text_value(row, m[CREATED_BY as int] as int)
    &&& v.feedback@ == text_value(row, m[FEEDBACK as int] as int)
    &&& v.project_contact_id@ == text_value(row, m[PROJECT_CONTACT_ID as int] as int)
    &&& Rating::read(cell_text(at(row, m[RATING as int] as int))) == Some(v.rating)
    &&& Result_::read(cell_text(at(row, m[RESULT as int] as int))) == Some(Some(v.result))
    &&& Some(v.retry_date) == date_value(row, m[RETRY_DATE as int] as int)
    &&& Some(v.retry_time) == time_value(row, m[RETRY_TIME as int] as int)
    &&& v.retry == Some(DateTime { date: v.retry_date, time: v.retry_time })
    &&& Status::read(cell_text(at(row, m[STATUS as int] as int))) == Some(Some(v.status))
}

fn value_error(row_number: usize, label: &str, reason: &str) -> (e: ImportError)
    ensures
        e matches ImportError::ValueError(n, l, r) && n == row_number && l@ == label@ && r@ == reason@,
{
    ImportError::ValueError(row_number, String::from_str(label), String::from_str(reason))
}

/// Transforms one data row into a record; the first cell that cannot be read fails it.
#[verifier::rlimit(60)]
pub fn transform_row(column_map: &Vec<usize>, row: &Vec<Cell>, row_number: usize) -> (r: Result<Row, ImportError>)
    requires
        column_map@.len() == COLUMNS,
        row_wf(row@),
    ensures
        match row_fault(nat_map(column_map@), row@) {
            Some(f) => r matches Err(ImportError::ValueError(n, l, msg)) && n == row_number && l@ == f.0 && msg@ == f.1,
            None => r matches Ok(v) && row_fits(v, nat_map(column_map@), row@),
        },
{
    let contact_type = match ContactType::from_excel_value(raw_text_field(row, column_map[CONTACT_TYPE])) {
        Ok(Some(x)) => x,
        Ok(None) => return Err(value_error(row_number, "contactType", "Cell has no value")),
        Err(e) => return Err(ImportError::ValueError(row_number, String::from_str("contactType"), e)),
    };
    let created_by = text_field(row, column_map[CREATED_BY]);
    let feedback = text_field(row, column_map[FEEDBACK]);
    let project_contact_id = text_field(row, column_map[PROJECT_CONTACT_ID]);
    let rating = match Rating::from_excel_value(raw_text_field(row, column_map[RATING])) {
        Ok(x) => x,
        Err(e) => return Err(ImportError::ValueError(row_number, String::from_str("Bewertung"), e)),
    };
    let result = match Result_::from_excel_value(raw_text_field(row, column_map[RESULT])) {
        Ok(Some(x)) => x,
        Ok(None) => return Err(value_error(row_number, "Ergebnis", "Cell has no value")),
        Err(e) => return Err(ImportError::ValueError(row_number, String::from_str("Ergebnis"), e)),
    };
    let retry_date = match date_field(row, column_map[RETRY_DATE]) {
        Some(x) => x,
        None => return Err(value_error(row_number, "Wiedervorlage Datum", "Cell has no value")),
    };
    let retry_time = match time_field(row, column_map[RETRY_TIME]) {
        Some(x) => x,
        None => return Err(value_error(row_number, "Wiedervorlage Zeit", "Cell has no value")),
    };
    let retry = Some(DateTime { date: retry_date, time: retry_time });
    let status = match Status::from_excel_value(raw_text_field(row, column_map[STATUS])) {
        Ok(Some(x)) => x,
        Ok(None) => return Err(value_error(row_number, "status", "Cell has no value")),
        Err(e) => return Err(ImportError::ValueError(row_number, String::from_str("status"), e)),
    };
    Ok(Row { contact_type, created_by, feedback, project_contact_id, rating, result, retry_date, retry_time, retry, status })
}

/// A row that ends the data.
pub open spec fn stop() -> spec_fn(Seq<nat>, Seq<Cell>) -> bool {
    |m: Seq<nat>, row: Seq<Cell>| false
}

/// How a row fails, as `row_fault` says.
pub open spec fn fault() -> spec_fn(Seq<nat>, Seq<Cell>) -> Option<(Seq<char>, Seq<char>)> {
    |m: Seq<nat>, row: Seq<Cell>| row_fault(m, row)
}

/// How a record fits its row, as `row_fits` says.
pub open spec fn fits() -> spec_fn(Row, Seq<nat>, Seq<Cell>) -> bool {
    |v: Row, m: Seq<nat>, row: Seq<Cell>| row_fits(v, m, row)
}

/// The key records are grouped by.
pub open spec fn key() -> spec_fn(Row) -> Seq<char> {
    |v: Row| v.project_contact_id@
}

/// Imports contact attempts, grouped by project contact id.
#[verifier::rlimit(30)]
pub fn run(sheet: &Sheet) -> (r: Result<Groups<Row>, ImportError>)
    requires
        sheet.wf(),
    ensures
        import_result(sheet, HEADER_ROW as nat, FIRST_ROW as nat, aliases(), names(), stop(), fault(), fits(), key(), r),
{
    let headers = read_headers(sheet, HEADER_ROW);
    let t = table();
    let res = resolve(&t, &headers);
    proof {
        if res is Err {
            lemma_resolve_failed(aliases(), names(), header_views(headers@), res);
        } else {
            lemma_resolve_succeeded(aliases(), names(), header_views(headers@), res);
        }
    }
    let column_map = match res {
        Ok(m) => m,
        Err(e) => return Err(e),
    };
    let ghost m = nat_map(column_map@);
    let ghost n = rows_until(sheet, FIRST_ROW as nat, m, stop());
    let ghost fs = faults(sheet, FIRST_ROW as nat, m, fault(), n);
    let mut out: Groups<Row> = Groups::new();
    let mut i: usize = FIRST_ROW;
    assert(fs.take(0) =~= Seq::<Option<(Seq<char>, Seq<char>)>>::empty());
    loop
        invariant
            sheet.wf(),
            column_map@.len() == COLUMNS,
            m == nat_map(column_map@),
            n == rows_until(sheet, FIRST_ROW as nat, m, stop()),
            fs == faults(sheet, FIRST_ROW as nat, m, fault(), n),
            FIRST_ROW <= i,
            i <= sheet.rows@.len() || i == FIRST_ROW,
            n == (i - FIRST_ROW) + rows_until(sheet, i as nat, m, stop()),
            out.wf(),
            out.entries@.len() == i - FIRST_ROW,
            first_fault(fs.take(i - FIRST_ROW)) is None,
            forall|k: int| 0 <= k < out.entries@.len() ==> fits()(#[trigger] out.entries@[k].1, m, row_cells(sheet, FIRST_ROW + k)) && out.entries@[k].0 == key()(out.entries@[k].1),
            resolved_map(aliases(), names(), header_texts(sheet, HEADER_ROW as int)) == Some(m),
        ensures
            rows_until(sheet, i as nat, m, stop()) == 0,
            out.wf(),
            out.entries@.len() == i - FIRST_ROW,
            first_fault(fs.take(i - FIRST_ROW)) is None,
            forall|k: int| 0 <= k < out.entries@.len() ==> fits()(#[trigger] out.entries@[k].1, m, row_cells(sheet, FIRST_ROW + k)) && out.entries@[k].0 == key()(out.entries@[k].1),
            resolved_map(aliases(), names(), header_texts(sheet, HEADER_ROW as int)) == Some(m),
        decreases sheet.rows@.len() - i,
    {
        if i >= sheet.rows.len() {
            break;
        }
        assert(row_wf(sheet.rows@[i as int]@)) by {
            assert forall|c: int| 0 <= c < sheet.rows@[i as int]@.len() implies (#[trigger] sheet.rows@[i as int]@[c]).wf() by {
                assert(sheet.rows@[i as int]@[c] == sheet.rows@[i as int]@[c]);
            }
        }
        assert(row_cells(sheet, i as int) == sheet.rows@[i as int]@);
        proof {
            lemma_first_fault_step(fs, i - FIRST_ROW);
        }
        let ghost k = i - FIRST_ROW;
        assert(fs[k] == row_fault(m, sheet.rows@[i as int]@));
        let rec = match transform_row(&column_map, &sheet.rows[i], i) {
            Ok(v) => v,
            Err(e) => {
                assert(first_fault(fs) == Some(k as nat));
                let ghost f = row_fault(m, sheet.rows@[i as int]@)->Some_0;
                assert(fs[k] == Some(f));
                assert(e matches ImportError::ValueError(n, l, msg) && n == FIRST_ROW + k && f == (l@, msg@));
                assert(FIRST_ROW as nat + k == i);
                return Err(e);
            },
        };
        let k = rec.project_contact_id.clone();
        out.add(k, rec);
        i = i + 1;
    }
    assert(fs.take(out.entries@.len() as int) =~= fs);
    Ok(out)
}

} // verus!
