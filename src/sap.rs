//! Invoice lines of the SAP export.

use vstd::prelude::*;
use crate::cell::{Cell, Date, Sheet};
use crate::decimal::Decimal;
use crate::error::ImportError;
use crate::fields::{date_field, date_value, number_field, number_value, row_wf, text_field, text_value};
use crate::grouping::Groups;
use crate::header::{header_views, resolve, resolves, HeaderTable};
use crate::records::{first_fault, import_result, faults, header_texts, resolved_map, lemma_first_fault_step, lemma_resolve_failed, lemma_resolve_succeeded, nat_map, read_headers, row_cells, rows_until};
use crate::text::trimmed;

verus! {

/// The row that holds the headers.
pub const HEADER_ROW: usize = 0;

/// The first row of data.
pub const FIRST_ROW: usize = 1;

/// Number of canonical columns.
pub const COLUMNS: usize = 17;

pub const READ_UNIT: usize = 0;
pub const PRICE_AMOUNT: usize = 1;
pub const TARIFF: usize = 2;
pub const NET_AMOUNT: usize = 3;
pub const CURRENCY: usize = 4;
pub const BILLING_AMOUNT: usize = 5;
pub const LINE_ID: usize = 6;
pub const ENERGY_TYPE: usize = 7;
pub const BA: usize = 8;
pub const VALID_FROM: usize = 9;
pub const CONTRACT: usize = 10;
pub const ENTRY_DATE: usize = 11;
pub const INVOICE_ID: usize = 12;
pub const SUPPLIER_CUSTOMER_ID: usize = 13;
pub const CONTRACT_ACCOUNT: usize = 14;
pub const VALID_TO: usize = 15;
pub const METERPOINT: usize = 16;

/// One invoice line.
#[derive(Debug)]
pub struct Row {
    pub read_unit: String,
    pub price_amount: Decimal,
    pub tariff: String,
    pub net_amount: Decimal,
    pub currency: String,
    pub billing_amount: Decimal,
    pub line_id: String,
    pub energy_type: String,
    pub ba: String,
    pub valid_from: Date,
    pub contract: String,
    pub entry_date: Date,
    pub invoice_id: String,
    pub supplier_customer_id: String,
    pub contract_account: String,
    pub valid_to: Date,
    pub meterpoint: String,
}

/// Canonical column names, by column number.
pub open spec fn names() -> Seq<Seq<char>> {
    seq!["ReadUnit"@, "PriceAmount"@, "Tariff"@, "NetAmount"@, "Currency"@, "BillingAmount"@, "LineId"@, "EnergyType"@, "Ba"@, "ValidFrom"@, "Contract"@, "EntryDate"@, "InvoiceId"@, "SupplierCustomerId"@, "ContractAccount"@, "ValidTo"@, "Meterpoint"@]
}

/// Header spellings, lower-case and trimmed, and the column each names.
pub open spec fn aliases() -> Seq<(Seq<char>, nat)> {
    seq![
        ("ableinh."@, 0),
        ("preisbetrag"@, 1),
        ("tariftyp"@, 2),
        ("nettobetrag"@, 3),
        ("twährg"@, 4),
        ("abrmenge"@, 5),
        ("bart"@, 6),
        ("sp"@, 7),
        ("ba"@, 8),
        ("gültig ab"@, 9),
        ("vertrag"@, 10),
        ("buch.dat."@, 11),
        ("druckbeleg"@, 12),
        ("geschäftspartner"@, 13),
        ("vertragskont"@, 14),
        ("gültig bis"@, 15),
        ("zp"@, 16),
    ]
}

/// The header table of this document.
#[verifier::rlimit(50)]
pub fn table() -> (t: HeaderTable)
    ensures
        t.wf(),
        t.alias_view() == aliases(),
        t.name_view() == names(),
{
    let mut column_names: Vec<String> = Vec::new();
    column_names.push(String::from_str("ReadUnit"));
    column_names.push(String::from_str("PriceAmount"));
    column_names.push(String::from_str("Tariff"));
    column_names.push(String::from_str("NetAmount"));
    column_names.push(String::from_str("Currency"));
    column_names.push(String::from_str("BillingAmount"));
    column_names.push(String::from_str("LineId"));
    column_names.push(String::from_str("EnergyType"));
    column_names.push(String::from_str("Ba"));
    column_names.push(String::from_str("ValidFrom"));
    column_names.push(String::from_str("Contract"));
    column_names.push(String::from_str("EntryDate"));
    column_names.push(String::from_str("InvoiceId"));
    column_names.push(String::from_str("SupplierCustomerId"));
    column_names.push(String::from_str("ContractAccount"));
    column_names.push(String::from_str("ValidTo"));
    column_names.push(String::from_str("Meterpoint"));
    let mut spellings: Vec<(String, usize)> = Vec::new();
    spellings.push((String::from_str("ableinh."), READ_UNIT));
    spellings.push((String::from_str("preisbetrag"), PRICE_AMOUNT));
    spellings.push((String::from_str("tariftyp"), TARIFF));
    spellings.push((String::from_str("nettobetrag"), NET_AMOUNT));
    spellings.push((String::from_str("twährg"), CURRENCY));
    spellings.push((String::from_str("abrmenge"), BILLING_AMOUNT));
    spellings.push((String::from_str("bart"), LINE_ID));
    spellings.push((String::from_str("sp"), ENERGY_TYPE));
    spellings.push((String::from_str("ba"), BA));
    spellings.push((String::from_str("gültig ab"), VALID_FROM));
    spellings.push((String::from_str("vertrag"), CONTRACT));
    spellings.push((String::from_str("buch.dat."), ENTRY_DATE));
    spellings.push((String::from_str("druckbeleg"), INVOICE_ID));
    spellings.push((String::from_str("geschäftspartner"), SUPPLIER_CUSTOMER_ID));
    spellings.push((String::from_str("vertragskont"), CONTRACT_ACCOUNT));
    spellings.push((String::from_str("gültig bis"), VALID_TO));
    spellings.push((String::from_str("zp"), METERPOINT));
    let t = HeaderTable { names: column_names, aliases: spellings };
    assert(t.alias_view() =~= aliases());
    assert(t.name_view() =~= names());
    t
}

/// Resolves a header row of this document to the position of each column.
pub fn get_column_map(headers: Vec<String>) -> (r: Result<Vec<usize>, ImportError>)
    ensures
        resolves(aliases(), names(), header_views(headers@), r),
{
    let t = table();
    resolve(&t, &headers)
}

/// The first cell of a row that cannot be read, as column label and reason.
pub open spec fn row_fault(m: Seq<nat>, row: Seq<Cell>) -> Option<(Seq<char>, Seq<char>)> {
    if number_value(row, m[PRICE_AMOUNT as int] as int) is None {
        Some(("Preisbetrag"@, "Cell has no value"@))
    } else if number_value(row, m[NET_AMOUNT as int] as int) is None {
        Some(("Nettobetrag"@, "Cell has no value"@))
    } else if number_value(row, m[BILLING_AMOUNT as int] as int) is None {
        Some(("Abrmenge"@, "Cell has no value"@))
    } else if date_value(row, m[VALID_FROM as int] as int) is None {
        Some(("Gültig ab"@, "Cell has no value"@))
    } else if date_value(row, m[ENTRY_DATE as int] as int) is None {
        Some(("Buch.dat."@, "Cell has no value"@))
    } else if date_value(row, m[VALID_TO as int] as int) is None {
        Some(("Gültig bis"@, "Cell has no value"@))
    } else {
        None
    }
}

/// The record `v` holds what row `row` holds, read through the column map `m`.
pub open spec fn row_fits(v: Row, m: Seq<nat>, row: Seq<Cell>) -> bool {
    &&& v.read_unit@ == text_value(row, m[READ_UNIT as int] as int)
    &&& Some(v.price_amount) == number_value(row, m[PRICE_AMOUNT as int] as int)
    &&& v.tariff@ == text_value(row, m[TARIFF as int] as int)
    &&& Some(v.net_amount) == number_value(row, m[NET_AMOUNT as int] as int)
    &&& v.currency@ == text_value(row, m[CURRENCY as int] as int)
    &&& Some(v.billing_amount) == number_value(row, m[BILLING_AMOUNT as int] as int)
    &&& v.line_id@ == text_value(row, m[LINE_ID as int] as int)
    &&& v.energy_type@ == text_value(row, m[ENERGY_TYPE as int] as int)
    &&& v.ba@ == text_value(row, m[BA as int] as int)
    &&& Some(v.valid_from) == date_value(row, m[VALID_FROM as int] as int)
    &&& v.contract@ == text_value(row, m[CONTRACT as int] as int)
    &&& Some(v.entry_date) == date_value(row, m[ENTRY_DATE as int] as int)
    &&& v.invoice_id@ == text_value(row, m[INVOICE_ID as int] as int)
    &&& v.supplier_customer_id@ == text_value(row, m[SUPPLIER_CUSTOMER_ID as int] as int)
    &&& v.contract_account@ == text_value(row, m[CONTRACT_ACCOUNT as int] as int)
    &&& Some(v.valid_to) == date_value(row, m[VALID_TO as int] as int)
    &&& v.meterpoint@ == text_value(row, m[METERPOINT as int] as int)
}

fn value_error(row_number: usize, label: &str, reason: &str) -> (e: ImportError)
    ensures
        e matches ImportError::ValueError(n, l, r) && n == row_number && l@ == label@ && r@ == reason@,
{
    ImportError::ValueError(row_number, String::from_str(label), String::from_str(reason))
}

/// Transforms one data row into a record; the first cell that cannot be read fails it.
#[verifier::rlimit(30)]
pub fn transform_row(column_map: &Vec<usize>, row: &Vec<Cell>, row_number: usize) -> (r: Result<Row, ImportError>)
    requires
        column_map@.len() == COLUMNS,
        row_wf(row@),
    ensures
        match row_fault(nat_map(column_map@), row@) {
            Some(f) => r matches Err(ImportError::ValueError(n, l, msg)) && n == row_number && l@ == f.0 && msg@ == f.1,
            None => r matches Ok(v) && row_fits(v, nat_map(column_map@), row@),
        },
{
    let read_unit = text_field(row, column_map[READ_UNIT]);
    let price_amount = match number_field(row, column_map[PRICE_AMOUNT]) {
        Some(x) => x,
        None => return Err(value_error(row_number, "Preisbetrag", "Cell has no value")),
    };
    let tariff = text_field(row, column_map[TARIFF]);
    let net_amount = match number_field(row, column_map[NET_AMOUNT]) {
        Some(x) => x,
        None => return Err(value_error(row_number, "Nettobetrag", "Cell has no value")),
    };
    let currency = text_field(row, column_map[CURRENCY]);
    let billing_amount = match number_field(row, column_map[BILLING_AMOUNT]) {
        Some(x) => x,
        None => return Err(value_error(row_number, "Abrmenge", "Cell has no value")),
    };
    let line_id = text_field(row, column_map[LINE_ID]);
    let energy_type = text_field(row, column_map[ENERGY_TYPE]);
    let ba = text_field(row, column_map[BA]);
    let valid_from = match date_field(row, column_map[VALID_FROM]) {
        Some(x) => x,
        None => return Err(value_error(row_number, "Gültig ab", "Cell has no value")),
    };
    let contract = text_field(row, column_map[CONTRACT]);
    let entry_date = match date_field(row, column_map[ENTRY_DATE]) {
        Some(x) => x,
        None => return Err(value_error(row_number, "Buch.dat.", "Cell has no value")),
    };
    let invoice_id = text_field(row, column_map[INVOICE_ID]);
    let supplier_customer_id = text_field(row, column_map[SUPPLIER_CUSTOMER_ID]);
    let contract_account = text_field(row, column_map[CONTRACT_ACCOUNT]);
    let valid_to = match date_field(row, column_map[VALID_TO]) {
        Some(x) => x,
        None => return Err(value_error(row_number, "Gültig bis", "Cell has no value")),
    };
    let meterpoint = text_field(row, column_map[METERPOINT]);
    Ok(Row { read_unit, price_amount, tariff, net_amount, currency, billing_amount, line_id, energy_type, ba, valid_from, contract, entry_date, invoice_id, supplier_customer_id, contract_account, valid_to, meterpoint })
}

/// A row that ends the data.
pub open spec fn stop() -> spec_fn(Seq<nat>, Seq<Cell>) -> bool {
    |m: Seq<nat>, row: Seq<Cell>| false
}

/// How a row fails, as `row_fault` says.
pub open spec fn fault() -> spec_fn(Seq<nat>, Seq<Cell>) -> Option<(Seq<char>, Seq<char>)> {
    |m: Seq<nat>, row: Seq<Cell>| row_fault(m, row)
}

/// How a record fits its row, as `row_fits` says.
pub open spec fn fits() -> spec_fn(Row, Seq<nat>, Seq<Cell>) -> bool {
    |v: Row, m: Seq<nat>, row: Seq<Cell>| row_fits(v, m, row)
}

/// The key records are grouped by.
pub open spec fn key() -> spec_fn(Row) -> Seq<char> {
    |v: Row| v.invoice_id@
}

/// Imports SAP invoice lines, grouped by invoice id.
#[verifier::rlimit(30)]
pub fn run(sheet: &Sheet) -> (r: Result<Groups<Row>, ImportError>)
    requires
        sheet.wf(),
    ensures
        import_result(sheet, HEADER_ROW as nat, FIRST_ROW as nat, aliases(), names(), stop(), fault(), fits(), key(), r),
{
    let headers = read_headers(sheet, HEADER_ROW);
    let t = table();
    let res = resolve(&t, &headers);
    proof {
        if res is Err {
            lemma_resolve_failed(aliases(), names(), header_views(headers@), res);
        } else {
            lemma_resolve_succeeded(aliases(), names(), header_views(headers@), res);
        }
    }
    let column_map = match res {
        Ok(m) => m,
        Err(e) => return Err(e),
    };
    let ghost m = nat_map(column_map@);
    let ghost n = rows_until(sheet, FIRST_ROW as nat, m, stop());
    let ghost fs = faults(sheet, FIRST_ROW as nat, m, fault(), n);
    let mut out: Groups<Row> = Groups::new();
    let mut i: usize = FIRST_ROW;
    assert(fs.take(0) =~= Seq::<Option<(Seq<char>, Seq<char>)>>::empty());
    loop
        invariant
            sheet.wf(),
            column_map@.len() == COLUMNS,
            m == nat_map(column_map@),
            n == rows_until(sheet, FIRST_ROW as nat, m, stop()),
            fs == faults(sheet, FIRST_ROW as nat, m, fault(), n),
            FIRST_ROW <= i,
            i <= sheet.rows@.len() || i == FIRST_ROW,
            n == (i - FIRST_ROW) + rows_until(sheet, i as nat, m, stop()),
            out.wf(),
            out.entries@.len() == i - FIRST_ROW,
            first_fault(fs.take(i - FIRST_ROW)) is None,
            forall|k: int| 0 <= k < out.entries@.len() ==> fits()(#[trigger] out.entries@[k].1, m, row_cells(sheet, FIRST_ROW + k)) && out.entries@[k].0 == key()(out.entries@[k].1),
            resolved_map(aliases(), names(), header_texts(sheet, HEADER_ROW as int)) == Some(m),
        ensures
            rows_until(sheet, i as nat, m, stop()) == 0,
            out.wf(),
            out.entries@.len() == i - FIRST_ROW,
            first_fault(fs.take(i - FIRST_ROW)) is None,
            forall|k: int| 0 <= k < out.entries@.len() ==> fits()(#[trigger] out.entries@[k].1, m, row_cells(sheet, FIRST_ROW + k)) && out.entries@[k].0 == key()(out.entries@[k].1),
            resolved_map(aliases(), names(), header_texts(sheet, HEADER_ROW as int)) == Some(m),
        decreases sheet.rows@.len() - i,
    {
        if i >= sheet.rows.len() {
            break;
        }
        assert(row_wf(sheet.rows@[i as int]@)) by {
            assert forall|c: int| 0 <= c < sheet.rows@[i as int]@.len() implies (#[trigger] sheet.rows@[i as int]@[c]).wf() by {
                assert(sheet.rows@[i as int]@[c] == sheet.rows@[i as int]@[c]);
            }
        }
        assert(row_cells(sheet, i as int) == sheet.rows@[i as int]@);
        proof {
            lemma_first_fault_step(fs, i - FIRST_ROW);
        }
        let ghost k = i - FIRST_ROW;
        assert(fs[k] == row_fault(m, sheet.rows@[i as int]@));
        let rec = match transform_row(&column_map, &sheet.rows[i], i) {
            Ok(v) => v,
            Err(e) => {
                assert(first_fault(fs) == Some(k as nat));
                let ghost f = row_fault(m, sheet.rows@[i as int]@)->Some_0;
                assert(fs[k] == Some(f));
                assert(e matches ImportError::ValueError(n, l, msg) && n == FIRST_ROW + k && f == (l@, msg@));
                assert(FIRST_ROW as nat + k == i);
                return Err(e);
            },
        };
        let k = rec.invoice_id.clone();
        out.add(k, rec);
        i = i + 1;
    }
    assert(fs.take(out.entries@.len() as int) =~= fs);
    Ok(out)
}

} // verus!
