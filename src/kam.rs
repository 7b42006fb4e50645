//! Key account master data.

use vstd::prelude::*;
use crate::cell::{Cell, Date, Sheet};
use crate::decimal::Decimal;
use crate::error::ImportError;
use crate::fields::{date_field, date_value, drop_sentinel, number_field, number_value, row_wf, text_field, text_value, without_sentinel};
use crate::grouping::Groups;
use crate::header::{header_views, resolve, resolves, HeaderTable};
use crate::records::{first_fault, import_result, faults, header_texts, resolved_map, lemma_first_fault_step, lemma_resolve_failed, lemma_resolve_succeeded, nat_map, read_headers, row_cells, rows_until};
use crate::text::trimmed;

verus! {

/// The row that holds the headers.
pub const HEADER_ROW: usize = 0;

/// The first row of data.
pub const FIRST_ROW: usize = 1;

/// Number of canonical columns.
pub const COLUMNS: usize = 36;

pub const AFFILIATE: usize = 0;
pub const BILL_ADDITION: usize = 1;
pub const BILL_CITY: usize = 2;
pub const BILL_NUMBER: usize = 3;
pub const BILL_STREET: usize = 4;
pub const BILL_ZIP: usize = 5;
pub const BILLING_TYPE: usize = 6;
pub const CONSUMPTION_AT_CHANGE: usize = 7;
pub const CONSUMPTION_FORECAST: usize = 8;
pub const CONTRACT: usize = 9;
pub const CONTRACT_ACCOUNT: usize = 10;
pub const CORRESPONDING_BILL_RECEIVER: usize = 11;
pub const DEVIANT_BILL_RECEIVER: usize = 12;
pub const E_INVOICE: usize = 13;
pub const ENERGY_TYPE: usize = 14;
pub const GRID_BILLING_INTEGRATED: usize = 15;
pub const IN_DATE: usize = 16;
pub const METERPOINT: usize = 17;
pub const MP_ADDITION: usize = 18;
pub const MP_CITY: usize = 19;
pub const MP_NUMBER: usize = 20;
pub const MP_STREET: usize = 21;
pub const MP_ZIP: usize = 22;
pub const NAME: usize = 23;
pub const NAME_ADD: usize = 24;
pub const OUT_DATE: usize = 25;
pub const POOL_CUSTOMER_ID: usize = 26;
pub const PROFILE: usize = 27;
pub const READ_UNIT: usize = 28;
pub const SEPA: usize = 29;
pub const SEPA_BLOCKED: usize = 30;
pub const SUPPLIER_CUSTOMER_GROUP_ID: usize = 31;
pub const SUPPLIER_CUSTOMER_GROUP_NAME: usize = 32;
pub const SUPPLIER_CUSTOMER_ID: usize = 33;
pub const SUPPLIER_METERPOINT_ID: usize = 34;
pub const TARIFF_TYP: usize = 35;

/// One supply point of a key account; an out date of `9999-12-31` reads as none.
#[derive(Debug)]
pub struct Row {
    pub affiliate: String,
    pub bill_addition: String,
    pub bill_city: String,
    pub bill_number: String,
    pub bill_street: String,
    pub bill_zip: String,
    pub billing_type: String,
    pub consumption_at_change: Decimal,
    pub consumption_forecast: Decimal,
    pub contract: String,
    pub contract_account: String,
    pub corresponding_bill_receiver: String,
    pub deviant_bill_receiver: String,
    pub e_invoice: String,
    pub energy_type: String,
    pub grid_billing_integrated: String,
    pub in_date: Date,
    pub meterpoint: String,
    pub mp_addition: String,
    pub mp_city: String,
    pub mp_number: String,
    pub mp_street: String,
    pub mp_zip: String,
    pub name: String,
    pub name_add: String,
    pub out_date: Option<Date>,
    pub pool_customer_id: String,
    pub profile: String,
    pub read_unit: String,
    pub sepa: String,
    pub sepa_blocked: String,
    pub supplier_customer_group_id: String,
    pub supplier_customer_group_name: String,
    pub supplier_customer_id: String,
    pub supplier_meterpoint_id: String,
    pub tariff_typ: String,
}

/// Canonical column names, by column number.
pub open spec fn names() -> Seq<Seq<char>> {
    seq!["Affiliate"@, "BillAddition"@, "BillCity"@, "BillNumber"@, "BillStreet"@, "BillZip"@, "BillingType"@, "ConsumptionAtChange"@, "ConsumptionForecast"@, "Contract"@, "ContractAccount"@, "CorrespondingBillReceiver"@, "DeviantBillReceiver"@, "EInvoice"@, "EnergyType"@, "GridBillingIntegrated"@, "InDate"@, "Meterpoint"@, "MpAddition"@, "MpCity"@, "MpNumber"@, "MpStreet"@, "MpZip"@, "Name"@, "NameAdd"@, "OutDate"@, "PoolCustomerId"@, "Profile"@, "ReadUnit"@, "Sepa"@, "SepaBlocked"@, "SupplierCustomerGroupId"@, "SupplierCustomerGroupName"@, "SupplierCustomerId"@, "SupplierMeterpointId"@, "TariffTyp"@]
}

/// Header spellings, lower-case and trimmed, and the column each names.
pub open spec fn aliases() -> Seq<(Seq<char>, nat)> {
    seq![
        ("zugehörigkeit"@, 0),
        ("r-zusatz"@, 1),
        ("r-ort"@, 2),
        ("r-hausnummer"@, 3),
        ("r-straße"@, 4),
        ("r-postleitzahl"@, 5),
        ("r-plz"@, 5),
        ("abrechnungsklasse"@, 6),
        ("wert bei wechsel kwh"@, 7),
        ("jahresverbrauch bei wechsel kwh"@, 7),
        ("aktueller prognosewert kwh"@, 8),
        ("prognosewert kwh"@, 8),
        ("vertrag"@, 9),
        ("vertragskonto"@, 10),
        ("korresp. empfänger"@, 11),
        ("korrespondenzempfänger"@, 11),
        ("abw.rechnungsempfg"@, 12),
        ("abw rechnungsempfänger"@, 12),
        ("e-rechnung zpdf=ja"@, 13),
        ("e-mail rechnung zpdf=ja"@, 13),
        ("serviceart"@, 14),
        ("sparte"@, 14),
        ("vorleistungsmodellnetz"@, 15),
        ("einzugsdatum"@, 16),
        ("zählpunktbezeichnung"@, 17),
        ("zählpunkt"@, 17),
        ("lagezusatz"@, 18),
        ("a-ort"@, 19),
        ("a-hausnummer"@, 20),
        ("a-straße"@, 21),
        ("a-postleitzahl"@, 22),
        ("a-plz"@, 22),
        ("name1"@, 23),
        ("name2"@, 24),
        ("auszugsdatum"@, 25),
        ("poolbetreiber-kundennummer"@, 26),
        ("bez. des profils"@, 27),
        ("lastprofil"@, 27),
        ("ableseeinheit"@, 28),
        ("sepa hinterlegt e=ja"@, 29),
        ("sepa"@, 29),
        ("sepa gesperrt"@, 30),
        ("sepa sperre"@, 30),
        ("gruppenkopf_av"@, 31),
        ("gruppenkopf"@, 31),
        ("gruppenkopf_av_name"@, 32),
        ("name-gruppenkopf"@, 32),
        ("geschäftspartner"@, 33),
        ("anlage"@, 34),
        ("tariftyp"@, 35),
    ]
}

/// The header table of this document.
#[verifier::rlimit(50)]
pub fn table() -> (t: HeaderTable)
    ensures
        t.wf(),
        t.alias_view() == aliases(),
        t.name_view() == names(),
{
    let mut column_names: Vec<String> = Vec::new();
    column_names.push(String::from_str("Affiliate"));
    column_names.push(String::from_str("BillAddition"));
    column_names.push(String::from_str("BillCity"));
    column_names.push(String::from_str("BillNumber"));
    column_names.push(String::from_str("BillStreet"));
    column_names.push(String::from_str("BillZip"));
    column_names.push(String::from_str("BillingType"));
    column_names.push(String::from_str("ConsumptionAtChange"));
    column_names.push(String::from_str("ConsumptionForecast"));
    column_names.push(String::from_str("Contract"));
    column_names.push(String::from_str("ContractAccount"));
    column_names.push(String::from_str("CorrespondingBillReceiver"));
    column_names.push(String::from_str("DeviantBillReceiver"));
    column_names.push(String::from_str("EInvoice"));
    column_names.push(String::from_str("EnergyType"));
    column_names.push(String::from_str("GridBillingIntegrated"));
    column_names.push(String::from_str("InDate"));
    column_names.push(String::from_str("Meterpoint"));
    column_names.push(String::from_str("MpAddition"));
    column_names.push(String::from_str("MpCity"));
    column_names.push(String::from_str("MpNumber"));
    column_names.push(String::from_str("MpStreet"));
    column_names.push(String::from_str("MpZip"));
    column_names.push(String::from_str("Name"));
    column_names.push(String::from_str("NameAdd"));
    column_names.push(String::from_str("OutDate"));
    column_names.push(String::from_str("PoolCustomerId"));
    column_names.push(String::from_str("Profile"));
    column_names.push(String::from_str("ReadUnit"));
    column_names.push(String::from_str("Sepa"));
    column_names.push(String::from_str("SepaBlocked"));
    column_names.push(String::from_str("SupplierCustomerGroupId"));
    column_names.push(String::from_str("SupplierCustomerGroupName"));
    column_names.push(String::from_str("SupplierCustomerId"));
    column_names.push(String::from_str("SupplierMeterpointId"));
    column_names.push(String::from_str("TariffTyp"));
    let mut spellings: Vec<(String, usize)> = Vec::new();
    spellings.push((String::from_str("zugehörigkeit"), AFFILIATE));
    spellings.push((String::from_str("r-zusatz"), BILL_ADDITION));
    spellings.push((String::from_str("r-ort"), BILL_CITY));
    spellings.push((String::from_str("r-hausnummer"), BILL_NUMBER));
    spellings.push((String::from_str("r-straße"), BILL_STREET));
    spellings.push((String::from_str("r-postleitzahl"), BILL_ZIP));
    spellings.push((String::from_str("r-plz"), BILL_ZIP));
    spellings.push((String::from_str("abrechnungsklasse"), BILLING_TYPE));
    spellings.push((String::from_str("wert bei wechsel kwh"), CONSUMPTION_AT_CHANGE));
    spellings.push((String::from_str("jahresverbrauch bei wechsel kwh"), CONSUMPTION_AT_CHANGE));
    spellings.push((String::from_str("aktueller prognosewert kwh"), CONSUMPTION_FORECAST));
    spellings.push((String::from_str("prognosewert kwh"), CONSUMPTION_FORECAST));
    spellings.push((String::from_str("vertrag"), CONTRACT));
    spellings.push((String::from_str("vertragskonto"), CONTRACT_ACCOUNT));
    spellings.push((String::from_str("korresp. empfänger"), CORRESPONDING_BILL_RECEIVER));
    spellings.push((String::from_str("korrespondenzempfänger"), CORRESPONDING_BILL_RECEIVER));
    spellings.push((String::from_str("abw.rechnungsempfg"), DEVIANT_BILL_RECEIVER));
    spellings.push((String::from_str("abw rechnungsempfänger"), DEVIANT_BILL_RECEIVER));
    spellings.push((String::from_str("e-rechnung zpdf=ja"), E_INVOICE));
    spellings.push((String::from_str("e-mail rechnung zpdf=ja"), E_INVOICE));
    spellings.push((String::from_str("serviceart"), ENERGY_TYPE));
    spellings.push((String::from_str("sparte"), ENERGY_TYPE));
    spellings.push((String::from_str("vorleistungsmodellnetz"), GRID_BILLING_INTEGRATED));
    spellings.push((String::from_str("einzugsdatum"), IN_DATE));
    spellings.push((String::from_str("zählpunktbezeichnung"), METERPOINT));
    spellings.push((String::from_str("zählpunkt"), METERPOINT));
    spellings.push((String::from_str("lagezusatz"), MP_ADDITION));
    spellings.push((String::from_str("a-ort"), MP_CITY));
    spellings.push((String::from_str("a-hausnummer"), MP_NUMBER));
    spellings.push((String::from_str("a-straße"), MP_STREET));
    spellings.push((String::from_str("a-postleitzahl"), MP_ZIP));
    spellings.push((String::from_str("a-plz"), MP_ZIP));
    spellings.push((String::from_str("name1"), NAME));
    spellings.push((String::from_str("name2"), NAME_ADD));
    spellings.push((String::from_str("auszugsdatum"), OUT_DATE));
    spellings.push((String::from_str("poolbetreiber-kundennummer"), POOL_CUSTOMER_ID));
    spellings.push((String::from_str("bez. des profils"), PROFILE));
    spellings.push((String::from_str("lastprofil"), PROFILE));
    spellings.push((String::from_str("ableseeinheit"), READ_UNIT));
    spellings.push((String::from_str("sepa hinterlegt e=ja"), SEPA));
    spellings.push((String::from_str("sepa"), SEPA));
    spellings.push((String::from_str("sepa gesperrt"), SEPA_BLOCKED));
    spellings.push((String::from_str("sepa sperre"), SEPA_BLOCKED));
    spellings.push((String::from_str("gruppenkopf_av"), SUPPLIER_CUSTOMER_GROUP_ID));
    spellings.push((String::from_str("gruppenkopf"), SUPPLIER_CUSTOMER_GROUP_ID));
    spellings.push((String::from_str("gruppenkopf_av_name"), SUPPLIER_CUSTOMER_GROUP_NAME));
    spellings.push((String::from_str("name-gruppenkopf"), SUPPLIER_CUSTOMER_GROUP_NAME));
    spellings.push((String::from_str("geschäftspartner"), SUPPLIER_CUSTOMER_ID));
    spellings.push((String::from_str("anlage"), SUPPLIER_METERPOINT_ID));
    spellings.push((String::from_str("tariftyp"), TARIFF_TYP));
    let t = HeaderTable { names: column_names, aliases: spellings };
    assert(t.alias_view() =~= aliases());
    assert(t.name_view() =~= names());
    t
}

/// Resolves a header row of this document to the position of each column.
pub fn get_column_map(headers: Vec<String>) -> (r: Result<Vec<usize>, ImportError>)
    ensures
        resolves(aliases(), names(), header_views(headers@), r),
{
    let t = table();
    resolve(&t, &headers)
}

/// The first cell of a row that cannot be read, as column label and reason.
pub open spec fn row_fault(m: Seq<nat>, row: Seq<Cell>) -> Option<(Seq<char>, Seq<char>)> {
    if number_value(row, m[CONSUMPTION_AT_CHANGE as int] as int) is None {
        Some(("Wert bei Wechsel kWh"@, "Cell has no value"@))
    } else if number_value(row, m[CONSUMPTION_FORECAST as int] as int) is None {
        Some(("aktueller Prognosewert kWh"@, "Cell has no value"@))
    } else if date_value(row, m[IN_DATE as int] as int) is None {
        Some(("Einzugsdatum"@, "Cell has no value"@))
    } else {
        None
    }
}

/// The record `v` holds what row `row` holds, read through the column map `m`.
pub open spec fn row_fits(v: Row, m: Seq<nat>, row: Seq<Cell>) -> bool {
    &&& v.affiliate@ == text_value(row, m[AFFILIATE as int] as int)
    &&& v.bill_addition@ == text_value(row, m[BILL_ADDITION as int] as int)
    &&& v.bill_city@ == text_value(row, m[BILL_CITY as int] as int)
    &&& v.bill_number@ == text_value(row, m[BILL_NUMBER as int] as int)
    &&& v.bill_street@ == text_value(row, m[BILL_STREET as int] as int)
    &&& v.bill_zip@ == text_value(row, m[BILL_ZIP as int] as int)
    &&& v.billing_type@ == text_value(row, m[BILLING_TYPE as int] as int)
    &&& Some(v.consumption_at_change) == number_value(row, m[CONSUMPTION_AT_CHANGE as int] as int)
    &&& Some(v.consumption_forecast) == number_value(row, m[CONSUMPTION_FORECAST as int] as int)
    &&& v.contract@ == text_value(row, m[CONTRACT as int] as int)
    &&& v.contract_account@ == text_value(row, m[CONTRACT_ACCOUNT as int] as int)
    &&& v.corresponding_bill_receiver@ == text_value(row, m[CORRESPONDING_BILL_RECEIVER as int] as int)
    &&& v.deviant_bill_receiver@ == text_value(row, m[DEVIANT_BILL_RECEIVER as int] as int)
    &&& v.e_invoice@ == text_value(row, m[E_INVOICE as int] as int)
    &&& v.energy_type@ == text_value(row, m[ENERGY_TYPE as int] as int)
    &&& v.grid_billing_integrated@ == text_value(row, m[GRID_BILLING_INTEGRATED as int] as int)
    &&& Some(v.in_date) == date_value(row, m[IN_DATE as int] as int)
    &&& v.meterpoint@ == text_value(row, m[METERPOINT as int] as int)
    &&& v.mp_addition@ == text_value(row, m[MP_ADDITION as int] as int)
    &&& v.mp_city@ == text_value(row, m[MP_CITY as int] as int)
    &&& v.mp_number@ == text_value(row, m[MP_NUMBER as int] as int)
    &&& v.mp_street@ == text_value(row, m[MP_STREET as int] as int)
    &&& v.mp_zip@ == text_value(row, m[MP_ZIP as int] as int)
    &&& v.name@ == text_value(row, m[NAME as int] as int)
    &&& v.name_add@ == text_value(row, m[NAME_ADD as int] as int)
    &&& v.out_date == without_sentinel(date_value(row, m[OUT_DATE as int] as int))
    &&& v.pool_customer_id@ == text_value(row, m[POOL_CUSTOMER_ID as int] as int)
    &&& v.profile@ == text_value(row, m[PROFILE as int] as int)
    &&& v.read_unit@ == text_value(row, m[READ_UNIT as int] as int)
    &&& v.sepa@ == text_value(row, m[SEPA as int] as int)
    &&& v.sepa_blocked@ == text_value(row, m[SEPA_BLOCKED as int] as int)
    &&& v.supplier_customer_group_id@ == text_value(row, m[SUPPLIER_CUSTOMER_GROUP_ID as int] as int)
    &&& v.supplier_customer_group_name@ == text_value(row, m[SUPPLIER_CUSTOMER_GROUP_NAME as int] as int)
    &&& v.supplier_customer_id@ == text_value(row, m[SUPPLIER_CUSTOMER_ID as int] as int)
    &&& v.supplier_meterpoint_id@ == text_value(row, m[SUPPLIER_METERPOINT_ID as int] as int)
    &&& v.tariff_typ@ == text_value(row, m[TARIFF_TYP as int] as int)
}

fn value_error(row_number: usize, label: &str, reason: &str) -> (e: ImportError)
    ensures
        e matches ImportError::ValueError(n, l, r) && n == row_number && l@ == label@ && r@ == reason@,
{
    ImportError::ValueError(row_number, String::from_str(label), String::from_str(reason))
}

/// Transforms one data row into a record; the first cell that cannot be read fails it.
#[verifier::rlimit(60)]
pub fn transform_row(column_map: &Vec<usize>, row: &Vec<Cell>, row_number: usize) -> (r: Result<Row, ImportError>)
    requires
        column_map@.len() == COLUMNS,
        row_wf(row@),
    ensures
        match row_fault(nat_map(column_map@), row@) {
            Some(f) => r matches Err(ImportError::ValueError(n, l, msg)) && n == row_number && l@ == f.0 && msg@ == f.1,
            None => r matches Ok(v) && row_fits(v, nat_map(column_map@), row@),
        },
{
    let affiliate = text_field(row, column_map[AFFILIATE]);
    let bill_addition = text_field(row, column_map[BILL_ADDITION]);
    let bill_city = text_field(row, column_map[BILL_CITY]);
    let bill_number = text_field(row, column_map[BILL_NUMBER]);
    let bill_street = text_field(row, column_map[BILL_STREET]);
    let bill_zip = text_field(row, column_map[BILL_ZIP]);
    let billing_type = text_field(row, column_map[BILLING_TYPE]);
    let consumption_at_change = match number_field(row, column_map[CONSUMPTION_AT_CHANGE]) {
        Some(x) => x,
        None => return Err(value_error(row_number, "Wert bei Wechsel kWh", "Cell has no value")),
    };
    let consumption_forecast = match number_field(row, column_map[CONSUMPTION_FORECAST]) {
        Some(x) => x,
        None => return Err(value_error(row_number, "aktueller Prognosewert kWh", "Cell has no value")),
    };
    let contract = text_field(row, column_map[CONTRACT]);
    let contract_account = text_field(row, column_map[CONTRACT_ACCOUNT]);
    let corresponding_bill_receiver = text_field(row, column_map[CORRESPONDING_BILL_RECEIVER]);
    let deviant_bill_receiver = text_field(row, column_map[DEVIANT_BILL_RECEIVER]);
    let e_invoice = text_field(row, column_map[E_INVOICE]);
    let energy_type = text_field(row, column_map[ENERGY_TYPE]);
    let grid_billing_integrated = text_field(row, column_map[GRID_BILLING_INTEGRATED]);
    let in_date = match date_field(row, column_map[IN_DATE]) {
        Some(x) => x,
        None => return Err(value_error(row_number, "Einzugsdatum", "Cell has no value")),
    };
    let meterpoint = text_field(row, column_map[METERPOINT]);
    let mp_addition = text_field(row, column_map[MP_ADDITION]);
    let mp_city = text_field(row, column_map[MP_CITY]);
    let mp_number = text_field(row, column_map[MP_NUMBER]);
    let mp_street = text_field(row, column_map[MP_STREET]);
    let mp_zip = text_field(row, column_map[MP_ZIP]);
    let name = text_field(row, column_map[NAME]);
    let name_add = text_field(row, column_map[NAME_ADD]);
    let out_date = drop_sentinel(date_field(row, column_map[OUT_DATE]));
    let pool_customer_id = text_field(row, column_map[POOL_CUSTOMER_ID]);
    let profile = text_field(row, column_map[PROFILE]);
    let read_unit = text_field(row, column_map[READ_UNIT]);
    let sepa = text_field(row, column_map[SEPA]);
    let sepa_blocked = text_field(row, column_map[SEPA_BLOCKED]);
    let supplier_customer_group_id = text_field(row, column_map[SUPPLIER_CUSTOMER_GROUP_ID]);
    let supplier_customer_group_name = text_field(row, column_map[SUPPLIER_CUSTOMER_GROUP_NAME]);
    let supplier_customer_id = text_field(row, column_map[SUPPLIER_CUSTOMER_ID]);
    let supplier_meterpoint_id = text_field(row, column_map[SUPPLIER_METERPOINT_ID]);
    let tariff_typ = text_field(row, column_map[TARIFF_TYP]);
    Ok(Row { affiliate, bill_addition, bill_city, bill_number, bill_street, bill_zip, billing_type, consumption_at_change, consumption_forecast, contract, contract_account, corresponding_bill_receiver, deviant_bill_receiver, e_invoice, energy_type, grid_billing_integrated, in_date, meterpoint, mp_addition, mp_city, mp_number, mp_street, mp_zip, name, name_add, out_date, pool_customer_id, profile, read_unit, sepa, sepa_blocked, supplier_customer_group_id, supplier_customer_group_name, supplier_customer_id, supplier_meterpoint_id, tariff_typ })
}

/// A row that ends the data.
pub open spec fn stop() -> spec_fn(Seq<nat>, Seq<Cell>) -> bool {
    |m: Seq<nat>, row: Seq<Cell>| false
}

/// How a row fails, as `row_fault` says.
pub open spec fn fault() -> spec_fn(Seq<nat>, Seq<Cell>) -> Option<(Seq<char>, Seq<char>)> {
    |m: Seq<nat>, row: Seq<Cell>| row_fault(m, row)
}

/// How a record fits its row, as `row_fits` says.
pub open spec fn fits() -> spec_fn(Row, Seq<nat>, Seq<Cell>) -> bool {
    |v: Row, m: Seq<nat>, row: Seq<Cell>| row_fits(v, m, row)
}

/// The key records are grouped by.
pub open spec fn key() -> spec_fn(Row) -> Seq<char> {
    |v: Row| v.supplier_customer_id@
}

/// Imports key account master data, grouped by supplier customer id.
#[verifier::rlimit(30)]
pub fn run(sheet: &Sheet) -> (r: Result<Groups<Row>, ImportError>)
    requires
        sheet.wf(),
    ensures
        import_result(sheet, HEADER_ROW as nat, FIRST_ROW as nat, aliases(), names(), stop(), fault(), fits(), key(), r),
{
    let headers = read_headers(sheet, HEADER_ROW);
    let t = table();
    let res = resolve(&t, &headers);
    proof {
        if res is Err {
            lemma_resolve_failed(aliases(), names(), header_views(headers@), res);
        } else {
            lemma_resolve_succeeded(aliases(), names(), header_views(headers@), res);
        }
    }
    let column_map = match res {
        Ok(m) => m,
        Err(e) => return Err(e),
    };
    let ghost m = nat_map(column_map@);
    let ghost n = rows_until(sheet, FIRST_ROW as nat, m, stop());
    let ghost fs = faults(sheet, FIRST_ROW as nat, m, fault(), n);
    let mut out: Groups<Row> = Groups::new();
    let mut i: usize = FIRST_ROW;
    assert(fs.take(0) =~= Seq::<Option<(Seq<char>, Seq<char>)>>::empty());
    loop
        invariant
            sheet.wf(),
            column_map@.len() == COLUMNS,
            m == nat_map(column_map@),
            n == rows_until(sheet, FIRST_ROW as nat, m, stop()),
            fs == faults(sheet, FIRST_ROW as nat, m, fault(), n),
            FIRST_ROW <= i,
            i <= sheet.rows@.len() || i == FIRST_ROW,
            n == (i - FIRST_ROW) + rows_until(sheet, i as nat, m, stop()),
            out.wf(),
            out.entries@.len() == i - FIRST_ROW,
            first_fault(fs.take(i - FIRST_ROW)) is None,
            forall|k: int| 0 <= k < out.entries@.len() ==> fits()(#[trigger] out.entries@[k].1, m, row_cells(sheet, FIRST_ROW + k)) && out.entries@[k].0 == key()(out.entries@[k].1),
            resolved_map(aliases(), names(), header_texts(sheet, HEADER_ROW as int)) == Some(m),
        ensures
            rows_until(sheet, i as nat, m, stop()) == 0,
            out.wf(),
            out.entries@.len() == i - FIRST_ROW,
            first_fault(fs.take(i - FIRST_ROW)) is None,
            forall|k: int| 0 <= k < out.entries@.len() ==> fits()(#[trigger] out.entries@[k].1, m, row_cells(sheet, FIRST_ROW + k)) && out.entries@[k].0 == key()(out.entries@[k].1),
            resolved_map(aliases(), names(), header_texts(sheet, HEADER_ROW as int)) == Some(m),
        decreases sheet.rows@.len() - i,
    {
        if i >= sheet.rows.len() {
            break;
        }
        assert(row_wf(sheet.rows@[i as int]@)) by {
            assert forall|c: int| 0 <= c < sheet.rows@[i as int]@.len() implies (#[trigger] sheet.rows@[i as int]@[c]).wf() by {
                assert(sheet.rows@[i as int]@[c] == sheet.rows@[i as int]@[c]);
            }
        }
        assert(row_cells(sheet, i as int) == sheet.rows@[i as int]@);
        proof {
            lemma_first_fault_step(fs, i - FIRST_ROW);
        }
        let ghost k = i - FIRST_ROW;
        assert(fs[k] == row_fault(m, sheet.rows@[i as int]@));
        let rec = match transform_row(&column_map, &sheet.rows[i], i) {
            Ok(v) => v,
            Err(e) => {
                assert(first_fault(fs) == Some(k as nat));
                let ghost f = row_fault(m, sheet.rows@[i as int]@)->Some_0;
                assert(fs[k] == Some(f));
                assert(e matches ImportError::ValueError(n, l, msg) && n == FIRST_ROW + k && f == (l@, msg@));
                assert(FIRST_ROW as nat + k == i);
                return Err(e);
            },
        };
        let k = rec.supplier_customer_id.clone();
        out.add(k, rec);
        i = i + 1;
    }
    assert(fs.take(out.entries@.len() as int) =~= fs);
    Ok(out)
}

} // verus!
