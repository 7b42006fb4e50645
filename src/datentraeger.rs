//! Billing data carrier export.

use vstd::prelude::*;
use crate::cell::{Cell, Date, Sheet};
use crate::decimal::Decimal;
use crate::error::ImportError;
use crate::fields::{date_field, date_value, number_field, number_value, row_wf, text_field, text_value};
use crate::grouping::Groups;
use crate::header::{header_views, resolve, resolves, HeaderTable};
use crate::records::{first_fault, import_result, faults, header_texts, resolved_map, lemma_first_fault_step, lemma_resolve_failed, lemma_resolve_succeeded, nat_map, read_headers, row_cells, rows_until};
use crate::text::trimmed;

verus! {

/// The row that holds the headers.
pub const HEADER_ROW: usize = 0;

/// The first row of data.
pub const FIRST_ROW: usize = 1;

/// Number of canonical columns.
pub const COLUMNS: usize = 50;

pub const ADDITION: usize = 0;
pub const CITY: usize = 1;
pub const COMMISSION_PRICE: usize = 2;
pub const CONTRACT_ACCOUNT: usize = 3;
pub const ENERGY_AMOUNT: usize = 4;
pub const ENERGY_BASE_AMOUNT: usize = 5;
pub const ENERGY_BASE_PRICE: usize = 6;
pub const ENERGY_CONSUMPTION: usize = 7;
pub const ENERGY_CONTRACT: usize = 8;
pub const ENERGY_FEE: usize = 9;
pub const ENERGY_LAW_AMOUNT: usize = 10;
pub const ENERGY_LAW_PRICE: usize = 11;
pub const ENERGY_TRANCHE_NET_TO_PAY: usize = 12;
pub const ENERGY_USAGE_FEE: usize = 13;
pub const ENTRY_EXIT_AMOUNT: usize = 14;
pub const ENTRY_EXIT_PRICE: usize = 15;
pub const GRID_BASE_AMOUNT: usize = 16;
pub const GRID_BASE_PRICE: usize = 17;
pub const GRID_CONSUMPTION: usize = 18;
pub const GRID_CONSUMPTION_HT: usize = 19;
pub const GRID_CONSUMPTION_NT: usize = 20;
pub const GRID_CONTRACT: usize = 21;
pub const GRID_FEE: usize = 22;
pub const GRID_OPERATOR: usize = 23;
pub const GRID_POWER: usize = 24;
pub const GRID_POWER_AMOUNT: usize = 25;
pub const GRID_TRANCHE_NET_TO_PAY: usize = 26;
pub const HANDLING_FEE_AMOUNT: usize = 27;
pub const HANDLING_FEE_PRICE: usize = 28;
pub const INVOICE: usize = 29;
pub const INVOICE_DATE: usize = 30;
pub const INVOICE_TYPE: usize = 31;
pub const METER_FEE: usize = 32;
pub const METERPOINT: usize = 33;
pub const NAME: usize = 34;
pub const NET_DUE: usize = 35;
pub const NUMBER: usize = 36;
pub const PRICE_ZONE: usize = 37;
pub const PROOF_OF_ORIGIN_AMOUNT: usize = 38;
pub const PROOF_OF_ORIGIN_PRICE: usize = 39;
pub const REACTIVE_ENERGY_CONSUMPTION_AMOUNT: usize = 40;
pub const REACTIVE_ENERGY_CONSUMPTION_TO_PAY: usize = 41;
pub const STREET: usize = 42;
pub const SUPPLIER_CUSTOMER_ID: usize = 43;
pub const TOTAL_VAT: usize = 44;
pub const VALID_FROM: usize = 45;
pub const VALID_TO: usize = 46;
pub const VAT: usize = 47;
pub const WORKING_PRICE: usize = 48;
pub const ZIP: usize = 49;

/// One billed supply point.
#[derive(Debug)]
pub struct Row {
    pub addition: String,
    pub city: String,
    pub commission_price: Decimal,
    pub contract_account: String,
    pub energy_amount: Decimal,
    pub energy_base_amount: Decimal,
    pub energy_base_price: Decimal,
    pub energy_consumption: Decimal,
    pub energy_contract: String,
    pub energy_fee: Decimal,
    pub energy_law_amount: Decimal,
    pub energy_law_price: Decimal,
    pub energy_tranche_net_to_pay: Decimal,
    pub energy_usage_fee: Decimal,
    pub entry_exit_amount: Decimal,
    pub entry_exit_price: Decimal,
    pub grid_base_amount: Decimal,
    pub grid_base_price: Decimal,
    pub grid_consumption: Decimal,
    pub grid_consumption_ht: Decimal,
    pub grid_consumption_nt: Decimal,
    pub grid_contract: String,
    pub grid_fee: Decimal,
    pub grid_operator: String,
    pub grid_power: Decimal,
    pub grid_power_amount: Decimal,
    pub grid_tranche_net_to_pay: Decimal,
    pub handling_fee_amount: Decimal,
    pub handling_fee_price: Decimal,
    pub invoice: String,
    pub invoice_date: Date,
    pub invoice_type: String,
    pub meter_fee: Decimal,
    pub meterpoint: String,
    pub name: String,
    pub net_due: Date,
    pub number: String,
    pub price_zone: Option<Decimal>,
    pub proof_of_origin_amount: Decimal,
    pub proof_of_origin_price: Decimal,
    pub reactive_energy_consumption_amount: Decimal,
    pub reactive_energy_consumption_to_pay: Decimal,
    pub street: String,
    pub supplier_customer_id: String,
    pub total_vat: Decimal,
    pub valid_from: Date,
    pub valid_to: Date,
    pub vat: Decimal,
    pub working_price: Decimal,
    pub zip: String,
}

/// Canonical column names, by column number.
pub open spec fn names() -> Seq<Seq<char>> {
    seq!["Addition"@, "City"@, "CommissionPrice"@, "ContractAccount"@, "EnergyAmount"@, "EnergyBaseAmount"@, "EnergyBasePrice"@, "EnergyConsumption"@, "EnergyContract"@, "EnergyFee"@, "EnergyLawAmount"@, "EnergyLawPrice"@, "EnergyTrancheNetToPay"@, "EnergyUsageFee"@, "EntryExitAmount"@, "EntryExitPrice"@, "GridBaseAmount"@, "GridBasePrice"@, "GridConsumption"@, "GridConsumptionHt"@, "GridConsumptionNt"@, "GridContract"@, "GridFee"@, "GridOperator"@, "GridPower"@, "GridPowerAmount"@, "GridTrancheNetToPay"@, "HandlingFeeAmount"@, "HandlingFeePrice"@, "Invoice"@, "InvoiceDate"@, "InvoiceType"@, "MeterFee"@, "Meterpoint"@, "Name"@, "NetDue"@, "Number"@, "PriceZone"@, "ProofOfOriginAmount"@, "ProofOfOriginPrice"@, "ReactiveEnergyConsumptionAmount"@, "ReactiveEnergyConsumptionToPay"@, "Street"@, "SupplierCustomerId"@, "TotalVat"@, "ValidFrom"@, "ValidTo"@, "Vat"@, "WorkingPrice"@, "Zip"@]
}

/// Header spellings, lower-case and trimmed, and the column each names.
pub open spec fn aliases() -> Seq<(Seq<char>, nat)> {
    seq![
        ("zusatz"@, 0),
        ("ort"@, 1),
        ("provisionspreis energie cent/kwh"@, 2),
        ("vk mye"@, 3),
        ("energie €/betrag"@, 4),
        ("grundpreis energie €/betrag"@, 5),
        ("grundpreis energie €/monat"@, 6),
        ("energie kwh"@, 7),
        ("e-vertrag"@, 8),
        ("energieabgabe betr."@, 9),
        ("eeffg €/betrag"@, 10),
        ("eeffg cent/kwh"@, 11),
        ("off.tb.ener.netto"@, 12),
        ("gebrauchsabgabe energie"@, 13),
        ("entry exit entgelt €/betrag"@, 14),
        ("entry exit entgelt cent/kwh"@, 15),
        ("grundpreis netz €/betrag"@, 16),
        ("grundpreis netz €/jahr"@, 17),
        ("netzverbrauch gesamt"@, 18),
        ("netzverbrauch ht"@, 19),
        ("netzverbrauch nt"@, 20),
        ("n-vertrag"@, 21),
        ("netzarb./netzverl./gebr.abg."@, 22),
        ("netzbetreiber"@, 23),
        ("netzleistung kw"@, 24),
        ("netzleistung betrag"@, 25),
        ("off.tb.netz netto"@, 26),
        ("abwicklungsbeitrag betrag"@, 27),
        ("abwicklungsbeitrag kwh"@, 28),
        ("einzelrechnung"@, 29),
        ("belegdatum"@, 30),
        ("belegart"@, 31),
        ("messpreis/mieten"@, 32),
        ("zählpunktbezeichnung"@, 33),
        ("name"@, 34),
        ("nettofälligkeit"@, 35),
        ("hausnummer"@, 36),
        ("preiszonentrennung €/betrag"@, 37),
        ("hkn €/betrag"@, 38),
        ("hkn cent/kwh"@, 39),
        ("blindverbrauch betrag"@, 40),
        ("blindverbrauch verr."@, 41),
        ("straße"@, 42),
        ("gp mye"@, 43),
        ("netto ustpf."@, 44),
        ("gültig ab"@, 45),
        ("gültig bis"@, 46),
        ("umsatzsteuer"@, 47),
        ("arbeitspreis energie cent/kwh"@, 48),
        ("plz"@, 49),
    ]
}

/// The header table of this document.
#[verifier::rlimit(50)]
pub fn table() -> (t: HeaderTable)
    ensures
        t.wf(),
        t.alias_view() == aliases(),
        t.name_view() == names(),
{
    let mut column_names: Vec<String> = Vec::new();
    column_names.push(String::from_str("Addition"));
    column_names.push(String::from_str("City"));
    column_names.push(String::from_str("CommissionPrice"));
    column_names.push(String::from_str("ContractAccount"));
    column_names.push(String::from_str("EnergyAmount"));
    column_names.push(String::from_str("EnergyBaseAmount"));
    column_names.push(String::from_str("EnergyBasePrice"));
    column_names.push(String::from_str("EnergyConsumption"));
    column_names.push(String::from_str("EnergyContract"));
    column_names.push(String::from_str("EnergyFee"));
    column_names.push(String::from_str("EnergyLawAmount"));
    column_names.push(String::from_str("EnergyLawPrice"));
    column_names.push(String::from_str("EnergyTrancheNetToPay"));
    column_names.push(String::from_str("EnergyUsageFee"));
    column_names.push(String::from_str("EntryExitAmount"));
    column_names.push(String::from_str("EntryExitPrice"));
    column_names.push(String::from_str("GridBaseAmount"));
    column_names.push(String::from_str("GridBasePrice"));
    column_names.push(String::from_str("GridConsumption"));
    column_names.push(String::from_str("GridConsumptionHt"));
    column_names.push(String::from_str("GridConsumptionNt"));
    column_names.push(String::from_str("GridContract"));
    column_names.push(String::from_str("GridFee"));
    column_names.push(String::from_str("GridOperator"));
    column_names.push(String::from_str("GridPower"));
    column_names.push(String::from_str("GridPowerAmount"));
    column_names.push(String::from_str("GridTrancheNetToPay"));
    column_names.push(String::from_str("HandlingFeeAmount"));
    column_names.push(String::from_str("HandlingFeePrice"));
    column_names.push(String::from_str("Invoice"));
    column_names.push(String::from_str("InvoiceDate"));
    column_names.push(String::from_str("InvoiceType"));
    column_names.push(String::from_str("MeterFee"));
    column_names.push(String::from_str("Meterpoint"));
    column_names.push(String::from_str("Name"));
    column_names.push(String::from_str("NetDue"));
    column_names.push(String::from_str("Number"));
    column_names.push(String::from_str("PriceZone"));
    column_names.push(String::from_str("ProofOfOriginAmount"));
    column_names.push(String::from_str("ProofOfOriginPrice"));
    column_names.push(String::from_str("ReactiveEnergyConsumptionAmount"));
    column_names.push(String::from_str("ReactiveEnergyConsumptionToPay"));
    column_names.push(String::from_str("Street"));
    column_names.push(String::from_str("SupplierCustomerId"));
    column_names.push(String::from_str("TotalVat"));
    column_names.push(String::from_str("ValidFrom"));
    column_names.push(String::from_str("ValidTo"));
    column_names.push(String::from_str("Vat"));
    column_names.push(String::from_str("WorkingPrice"));
    column_names.push(String::from_str("Zip"));
    let mut spellings: Vec<(String, usize)> = Vec::new();
    spellings.push((String::from_str("zusatz"), ADDITION));
    spellings.push((String::from_str("ort"), CITY));
    spellings.push((String::from_str("provisionspreis energie cent/kwh"), COMMISSION_PRICE));
    spellings.push((String::from_str("vk mye"), CONTRACT_ACCOUNT));
    spellings.push((String::from_str("energie €/betrag"), ENERGY_AMOUNT));
    spellings.push((String::from_str("grundpreis energie €/betrag"), ENERGY_BASE_AMOUNT));
    spellings.push((String::from_str("grundpreis energie €/monat"), ENERGY_BASE_PRICE));
    spellings.push((String::from_str("energie kwh"), ENERGY_CONSUMPTION));
    spellings.push((String::from_str("e-vertrag"), ENERGY_CONTRACT));
    spellings.push((String::from_str("energieabgabe betr."), ENERGY_FEE));
    spellings.push((String::from_str("eeffg €/betrag"), ENERGY_LAW_AMOUNT));
    spellings.push((String::from_str("eeffg cent/kwh"), ENERGY_LAW_PRICE));
    spellings.push((String::from_str("off.tb.ener.netto"), ENERGY_TRANCHE_NET_TO_PAY));
    spellings.push((String::from_str("gebrauchsabgabe energie"), ENERGY_USAGE_FEE));
    spellings.push((String::from_str("entry exit entgelt €/betrag"), ENTRY_EXIT_AMOUNT));
    spellings.push((String::from_str("entry exit entgelt cent/kwh"), ENTRY_EXIT_PRICE));
    spellings.push((String::from_str("grundpreis netz €/betrag"), GRID_BASE_AMOUNT));
    spellings.push((String::from_str("grundpreis netz €/jahr"), GRID_BASE_PRICE));
    spellings.push((String::from_str("netzverbrauch gesamt"), GRID_CONSUMPTION));
    spellings.push((String::from_str("netzverbrauch ht"), GRID_CONSUMPTION_HT));
    spellings.push((String::from_str("netzverbrauch nt"), GRID_CONSUMPTION_NT));
    spellings.push((String::from_str("n-vertrag"), GRID_CONTRACT));
    spellings.push((String::from_str("netzarb./netzverl./gebr.abg."), GRID_FEE));
    spellings.push((String::from_str("netzbetreiber"), GRID_OPERATOR));
    spellings.push((String::from_str("netzleistung kw"), GRID_POWER));
    spellings.push((String::from_str("netzleistung betrag"), GRID_POWER_AMOUNT));
    spellings.push((String::from_str("off.tb.netz netto"), GRID_TRANCHE_NET_TO_PAY));
    spellings.push((String::from_str("abwicklungsbeitrag betrag"), HANDLING_FEE_AMOUNT));
    spellings.push((String::from_str("abwicklungsbeitrag kwh"), HANDLING_FEE_PRICE));
    spellings.push((String::from_str("einzelrechnung"), INVOICE));
    spellings.push((String::from_str("belegdatum"), INVOICE_DATE));
    spellings.push((String::from_str("belegart"), INVOICE_TYPE));
    spellings.push((String::from_str("messpreis/mieten"), METER_FEE));
    spellings.push((String::from_str("zählpunktbezeichnung"), METERPOINT));
    spellings.push((String::from_str("name"), NAME));
    spellings.push((String::from_str("nettofälligkeit"), NET_DUE));
    spellings.push((String::from_str("hausnummer"), NUMBER));
    spellings.push((String::from_str("preiszonentrennung €/betrag"), PRICE_ZONE));
    spellings.push((String::from_str("hkn €/betrag"), PROOF_OF_ORIGIN_AMOUNT));
    spellings.push((String::from_str("hkn cent/kwh"), PROOF_OF_ORIGIN_PRICE));
    spellings.push((String::from_str("blindverbrauch betrag"), REACTIVE_ENERGY_CONSUMPTION_AMOUNT));
    spellings.push((String::from_str("blindverbrauch verr."), REACTIVE_ENERGY_CONSUMPTION_TO_PAY));
    spellings.push((String::from_str("straße"), STREET));
    spellings.push((String::from_str("gp mye"), SUPPLIER_CUSTOMER_ID));
    spellings.push((String::from_str("netto ustpf."), TOTAL_VAT));
    spellings.push((String::from_str("gültig ab"), VALID_FROM));
    spellings.push((String::from_str("gültig bis"), VALID_TO));
    spellings.push((String::from_str("umsatzsteuer"), VAT));
    spellings.push((String::from_str("arbeitspreis energie cent/kwh"), WORKING_PRICE));
    spellings.push((String::from_str("plz"), ZIP));
    let t = HeaderTable { names: column_names, aliases: spellings };
    assert(t.alias_view() =~= aliases());
    assert(t.name_view() =~= names());
    t
}

/// Resolves a header row of this document to the position of each column.
pub fn get_column_map(headers: Vec<String>) -> (r: Result<Vec<usize>, ImportError>)
    ensures
        resolves(aliases(), names(), header_views(headers@), r),
{
    let t = table();
    resolve(&t, &headers)
}

/// The first cell of a row that cannot be read, as column label and reason.
pub open spec fn row_fault(m: Seq<nat>, row: Seq<Cell>) -> Option<(Seq<char>, Seq<char>)> {
    if number_value(row, m[COMMISSION_PRICE as int] as int) is None {
        Some(("Provisionspreis Energie Cent/kWh"@, "Cell has no value"@))
    } else if number_value(row, m[ENERGY_AMOUNT as int] as int) is None {
        Some(("Energie €/Betrag"@, "Cell has no value"@))
    } else if number_value(row, m[ENERGY_BASE_AMOUNT as int] as int) is None {
        Some(("Grundpreis Energie €/Betrag"@, "Cell has no value"@))
    } else if number_value(row, m[ENERGY_BASE_PRICE as int] as int) is None {
        Some(("Grundpreis Energie €/Monat"@, "Cell has no value"@))
    } else if number_value(row, m[ENERGY_CONSUMPTION as int] as int) is None {
        Some(("Energie kWh"@, "Cell has no value"@))
    } else if number_value(row, m[ENERGY_FEE as int] as int) is None {
        Some(("Energieabgabe Betr."@, "Cell has no value"@))
    } else if number_value(row, m[ENERGY_LAW_AMOUNT as int] as int) is None {
        Some(("EEffG €/Betrag"@, "Cell has no value"@))
    } else if number_value(row, m[ENERGY_LAW_PRICE as int] as int) is None {
        Some(("EEffG Cent/kWh"@, "Cell has no value"@))
    } else if number_value(row, m[ENERGY_TRANCHE_NET_TO_PAY as int] as int) is None {
        Some(("Off.Tb.Ener.Netto"@, "Cell has no value"@))
    } else if number_value(row, m[ENERGY_USAGE_FEE as int] as int) is None {
        Some(("Gebrauchsabgabe Energie"@, "Cell has no value"@))
    } else if number_value(row, m[ENTRY_EXIT_AMOUNT as int] as int) is None {
        Some(("Entry Exit Entgelt €/Betrag"@, "Cell has no value"@))
    } else if number_value(row, m[ENTRY_EXIT_PRICE as int] as int) is None {
        Some(("Entry Exit Entgelt Cent/kWh"@, "Cell has no value"@))
    } else if number_value(row, m[GRID_BASE_AMOUNT as int] as int) is None {
        Some(("Grundpreis Netz €/Betrag"@, "Cell has no value"@))
    } else if number_value(row, m[GRID_BASE_PRICE as int] as int) is None {
        Some(("Grundpreis Netz €/Jahr"@, "Cell has no value"@))
    } else if number_value(row, m[GRID_CONSUMPTION as int] as int) is None {
        Some(("Netzverbrauch Gesamt"@, "Cell has no value"@))
    } else if number_value(row, m[GRID_CONSUMPTION_HT as int] as int) is None {
        Some(("Netzverbrauch HT"@, "Cell has no value"@))
    } else if number_value(row, m[GRID_CONSUMPTION_NT as int] as int) is None {
        Some(("Netzverbrauch NT"@, "Cell has no value"@))
    } else if number_value(row, m[GRID_FEE as int] as int) is None {
        Some(("Netzarb./Netzverl./Gebr.abg."@, "Cell has no value"@))
    } else if number_value(row, m[GRID_POWER as int] as int) is None {
        Some(("Netzleistung kW"@, "Cell has no value"@))
    } else if number_value(row, m[GRID_POWER_AMOUNT as int] as int) is None {
        Some(("Netzleistung Betrag"@, "Cell has no value"@))
    } else if number_value(row, m[GRID_TRANCHE_NET_TO_PAY as int] as int) is None {
        Some(("Off.Tb.Netz Netto"@, "Cell has no value"@))
    } else if number_value(row, m[HANDLING_FEE_AMOUNT as int] as int) is None {
        Some(("Abwicklungsbeitrag Betrag"@, "Cell has no value"@))
    } else if number_value(row, m[HANDLING_FEE_PRICE as int] as int) is None {
        Some(("Abwicklungsbeitrag kWh"@, "Cell has no value"@))
    } else if date_value(row, m[INVOICE_DATE as int] as int) is None {
        Some(("Belegdatum"@, "Cell has no value"@))
    } else if number_value(row, m[METER_FEE as int] as int) is None {
        Some(("Messpreis/Mieten"@, "Cell has no value"@))
    } else if date_value(row, m[NET_DUE as int] as int) is None {
        Some(("Nettofälligkeit"@, "Cell has no value"@))
    } else if number_value(row, m[PROOF_OF_ORIGIN_AMOUNT as int] as int) is None {
        Some(("HKN €/Betrag"@, "Cell has no value"@))
    } else if number_value(row, m[PROOF_OF_ORIGIN_PRICE as int] as int) is None {
        Some(("HKN Cent/kWh"@, "Cell has no value"@))
    } else if number_value(row, m[REACTIVE_ENERGY_CONSUMPTION_AMOUNT as int] as int) is None {
        Some(("Blindverbrauch Betrag"@, "Cell has no value"@))
    } else if number_value(row, m[REACTIVE_ENERGY_CONSUMPTION_TO_PAY as int] as int) is None {
        Some(("Blindverbrauch Verr."@, "Cell has no value"@))
    } else if number_value(row, m[TOTAL_VAT as int] as int) is None {
        Some(("Netto Ustpf."@, "Cell has no value"@))
    } else if date_value(row, m[VALID_FROM as int] as int) is None {
        Some(("Gültig ab"@, "Cell has no value"@))
    } else if date_value(row, m[VALID_TO as int] as int) is None {
        Some(("Gültig bis"@, "Cell has no value"@))
    } else if number_value(row, m[VAT as int] as int) is None {
        Some(("Umsatzsteuer"@, "Cell has no value"@))
    } else if number_value(row, m[WORKING_PRICE as int] as int) is None {
        Some(("Arbeitspreis Energie Cent/kWh"@, "Cell has no value"@))
    } else {
        None
    }
}

/// The record `v` holds what row `row` holds, read through the column map `m`.
pub open spec fn row_fits(v: Row, m: Seq<nat>, row: Seq<Cell>) -> bool {
    &&& v.addition@ == text_value(row, m[ADDITION as int] as int)
    &&& v.city@ == text_value(row, m[CITY as int] as int)
    &&& Some(v.commission_price) == number_value(row, m[COMMISSION_PRICE as int] as int)
    &&& v.contract_account@ == text_value(row, m[CONTRACT_ACCOUNT as int] as int)
    &&& Some(v.energy_amount) == number_value(row, m[ENERGY_AMOUNT as int] as int)
    &&& Some(v.energy_base_amount) == number_value(row, m[ENERGY_BASE_AMOUNT as int] as int)
    &&& Some(v.energy_base_price) == number_value(row, m[ENERGY_BASE_PRICE as int] as int)
    &&& Some(v.energy_consumption) == number_value(row, m[ENERGY_CONSUMPTION as int] as int)
    &&& v.energy_contract@ == text_value(row, m[ENERGY_CONTRACT as int] as int)
    &&& Some(v.energy_fee) == number_value(row, m[ENERGY_FEE as int] as int)
    &&& Some(v.energy_law_amount) == number_value(row, m[ENERGY_LAW_AMOUNT as int] as int)
    &&& Some(v.energy_law_price) == number_value(row, m[ENERGY_LAW_PRICE as int] as int)
    &&& Some(v.energy_tranche_net_to_pay) == number_value(row, m[ENERGY_TRANCHE_NET_TO_PAY as int] as int)
    &&& Some(v.energy_usage_fee) == number_value(row, m[ENERGY_USAGE_FEE as int] as int)
    &&& Some(v.entry_exit_amount) == number_value(row, m[ENTRY_EXIT_AMOUNT as int] as int)
    &&& Some(v.entry_exit_price) == number_value(row, m[ENTRY_EXIT_PRICE as int] as int)
    &&& Some(v.grid_base_amount) == number_value(row, m[GRID_BASE_AMOUNT as int] as int)
    &&& Some(v.grid_base_price) == number_value(row, m[GRID_BASE_PRICE as int] as int)
    &&& Some(v.grid_consumption) == number_value(row, m[GRID_CONSUMPTION as int] as int)
    &&& Some(v.grid_consumption_ht) == number_value(row, m[GRID_CONSUMPTION_HT as int] as int)
    &&& Some(v.grid_consumption_nt) == number_value(row, m[GRID_CONSUMPTION_NT as int] as int)
    &&& v.grid_contract@ == text_value(row, m[GRID_CONTRACT as int] as int)
    &&& Some(v.grid_fee) == number_value(row, m[GRID_FEE as int] as int)
    &&& v.grid_operator@ == text_value(row, m[GRID_OPERATOR as int] as int)
    &&& Some(v.grid_power) == number_value(row, m[GRID_POWER as int] as int)
    &&& Some(v.grid_power_amount) == number_value(row, m[GRID_POWER_AMOUNT as int] as int)
    &&& Some(v.grid_tranche_net_to_pay) == number_value(row, m[GRID_TRANCHE_NET_TO_PAY as int] as int)
    &&& Some(v.handling_fee_amount) == number_value(row, m[HANDLING_FEE_AMOUNT as int] as int)
    &&& Some(v.handling_fee_price) == number_value(row, m[HANDLING_FEE_PRICE as int] as int)
    &&& v.invoice@ == text_value(row, m[INVOICE as int] as int)
    &&& Some(v.invoice_date) == date_value(row, m[INVOICE_DATE as int] as int)
    &&& v.invoice_type@ == text_value(row, m[INVOICE_TYPE as int] as int)
    &&& Some(v.meter_fee) == number_value(row, m[METER_FEE as int] as int)
    &&& v.meterpoint@ == text_value(row, m[METERPOINT as int] as int)
    &&& v.name@ == text_value(row, m[NAME as int] as int)
    &&& Some(v.net_due) == date_value(row, m[NET_DUE as int] as int)
    &&& v.number@ == text_value(row, m[NUMBER as int] as int)
    &&& v.price_zone == number_value(row, m[PRICE_ZONE as int] as int)
    &&& Some(v.proof_of_origin_amount) == number_value(row, m[PROOF_OF_ORIGIN_AMOUNT as int] as int)
    &&& Some(v.proof_of_origin_price) == number_value(row, m[PROOF_OF_ORIGIN_PRICE as int] as int)
    &&& Some(v.reactive_energy_consumption_amount) == number_value(row, m[REACTIVE_ENERGY_CONSUMPTION_AMOUNT as int] as int)
    &&& Some(v.reactive_energy_consumption_to_pay) == number_value(row, m[REACTIVE_ENERGY_CONSUMPTION_TO_PAY as int] as int)
    &&& v.street@ == text_value(row, m[STREET as int] as int)
    &&& v.supplier_customer_id@ == text_value(row, m[SUPPLIER_CUSTOMER_ID as int] as int)
    &&& Some(v.total_vat) == number_value(row, m[TOTAL_VAT as int] as int)
    &&& Some(v.valid_from) == date_value(row, m[VALID_FROM as int] as int)
    &&& Some(v.valid_to) == date_value(row, m[VALID_TO as int] as int)
    &&& Some(v.vat) == number_value(row, m[VAT as int] as int)
    &&& Some(v.working_price) == number_value(row, m[WORKING_PRICE as int] as int)
    &&& v.zip@ == text_value(row, m[ZIP as int] as int)
}

fn value_error(row_number: usize, label: &str, reason: &str) -> (e: ImportError)
    ensures
        e matches ImportError::ValueError(n, l, r) && n == row_number && l@ == label@ && r@ == reason@,
{
    ImportError::ValueError(row_number, String::from_str(label), String::from_str(reason))
}

/// Transforms one data row into a record; the first cell that cannot be read fails it.
#[verifier::rlimit(100)]
pub fn transform_row(column_map: &Vec<usize>, row: &Vec<Cell>, row_number: usize) -> (r: Result<Row, ImportError>)
    requires
        column_map@.len() == COLUMNS,
        row_wf(row@),
    ensures
        match row_fault(nat_map(column_map@), row@) {
            Some(f) => r matches Err(ImportError::ValueError(n, l, msg)) && n == row_number && l@ == f.0 && msg@ == f.1,
            None => r matches Ok(v) && row_fits(v, nat_map(column_map@), row@),
        },
{
    let addition = text_field(row, column_map[ADDITION]);
    let city = text_field(row, column_map[CITY]);
    let commission_price = match number_field(row, column_map[COMMISSION_PRICE]) {
        Some(x) => x,
        None => return Err(value_error(row_number, "Provisionspreis Energie Cent/kWh", "Cell has no value")),
    };
    let contract_account = text_field(row, column_map[CONTRACT_ACCOUNT]);
    let energy_amount = match number_field(row, column_map[ENERGY_AMOUNT]) {
        Some(x) => x,
        None => return Err(value_error(row_number, "Energie €/Betrag", "Cell has no value")),
    };
    let energy_base_amount = match number_field(row, column_map[ENERGY_BASE_AMOUNT]) {
        Some(x) => x,
        None => return Err(value_error(row_number, "Grundpreis Energie €/Betrag", "Cell has no value")),
    };
    let energy_base_price = match number_field(row, column_map[ENERGY_BASE_PRICE]) {
        Some(x) => x,
        None => return Err(value_error(row_number, "Grundpreis Energie €/Monat", "Cell has no value")),
    };
    let energy_consumption = match number_field(row, column_map[ENERGY_CONSUMPTION]) {
        Some(x) => x,
        None => return Err(value_error(row_number, "Energie kWh", "Cell has no value")),
    };
    let energy_contract = text_field(row, column_map[ENERGY_CONTRACT]);
    let energy_fee = match number_field(row, column_map[ENERGY_FEE]) {
        Some(x) => x,
        None => return Err(value_error(row_number, "Energieabgabe Betr.", "Cell has no value")),
    };
    let energy_law_amount = match number_field(row, column_map[ENERGY_LAW_AMOUNT]) {
        Some(x) => x,
        None => return Err(value_error(row_number, "EEffG €/Betrag", "Cell has no value")),
    };
    let energy_law_price = match number_field(row, column_map[ENERGY_LAW_PRICE]) {
        Some(x) => x,
        None => return Err(value_error(row_number, "EEffG Cent/kWh", "Cell has no value")),
    };
    let energy_tranche_net_to_pay = match number_field(row, column_map[ENERGY_TRANCHE_NET_TO_PAY]) {
        Some(x) => x,
        None => return Err(value_error(row_number, "Off.Tb.Ener.Netto", "Cell has no value")),
    };
    let energy_usage_fee = match number_field(row, column_map[ENERGY_USAGE_FEE]) {
        Some(x) => x,
        None => return Err(value_error(row_number, "Gebrauchsabgabe Energie", "Cell has no value")),
    };
    let entry_exit_amount = match number_field(row, column_map[ENTRY_EXIT_AMOUNT]) {
        Some(x) => x,
        None => return Err(value_error(row_number, "Entry Exit Entgelt €/Betrag", "Cell has no value")),
    };
    let entry_exit_price = match number_field(row, column_map[ENTRY_EXIT_PRICE]) {
        Some(x) => x,
        None => return Err(value_error(row_number, "Entry Exit Entgelt Cent/kWh", "Cell has no value")),
    };
    let grid_base_amount = match number_field(row, column_map[GRID_BASE_AMOUNT]) {
        Some(x) => x,
        None => return Err(value_error(row_number, "Grundpreis Netz €/Betrag", "Cell has no value")),
    };
    let grid_base_price = match number_field(row, column_map[GRID_BASE_PRICE]) {
        Some(x) => x,
        None => return Err(value_error(row_number, "Grundpreis Netz €/Jahr", "Cell has no value")),
    };
    let grid_consumption = match number_field(row, column_map[GRID_CONSUMPTION]) {
        Some(x) => x,
        None => return Err(value_error(row_number, "Netzverbrauch Gesamt", "Cell has no value")),
    };
    let grid_consumption_ht = match number_field(row, column_map[GRID_CONSUMPTION_HT]) {
        Some(x) => x,
        None => return Err(value_error(row_number, "Netzverbrauch HT", "Cell has no value")),
    };
    let grid_consumption_nt = match number_field(row, column_map[GRID_CONSUMPTION_NT]) {
        Some(x) => x,
        None => return Err(value_error(row_number, "Netzverbrauch NT", "Cell has no value")),
    };
    let grid_contract = text_field(row, column_map[GRID_CONTRACT]);
    let grid_fee = match number_field(row, column_map[GRID_FEE]) {
        Some(x) => x,
        None => return Err(value_error(row_number, "Netzarb./Netzverl./Gebr.abg.", "Cell has no value")),
    };
    let grid_operator = text_field(row, column_map[GRID_OPERATOR]);
    let grid_power = match number_field(row, column_map[GRID_POWER]) {
        Some(x) => x,
        None => return Err(value_error(row_number, "Netzleistung kW", "Cell has no value")),
    };
    let grid_power_amount = match number_field(row, column_map[GRID_POWER_AMOUNT]) {
        Some(x) => x,
        None => return Err(value_error(row_number, "Netzleistung Betrag", "Cell has no value")),
    };
    let grid_tranche_net_to_pay = match number_field(row, column_map[GRID_TRANCHE_NET_TO_PAY]) {
        Some(x) => x,
        None => return Err(value_error(row_number, "Off.Tb.Netz Netto", "Cell has no value")),
    };
    let handling_fee_amount = match number_field(row, column_map[HANDLING_FEE_AMOUNT]) {
        Some(x) => x,
        None => return Err(value_error(row_number, "Abwicklungsbeitrag Betrag", "Cell has no value")),
    };
    let handling_fee_price = match number_field(row, column_map[HANDLING_FEE_PRICE]) {
        Some(x) => x,
        None => return Err(value_error(row_number, "Abwicklungsbeitrag kWh", "Cell has no value")),
    };
    let invoice = text_field(row, column_map[INVOICE]);
    let invoice_date = match date_field(row, column_map[INVOICE_DATE]) {
        Some(x) => x,
        None => return Err(value_error(row_number, "Belegdatum", "Cell has no value")),
    };
    let invoice_type = text_field(row, column_map[INVOICE_TYPE]);
    let meter_fee = match number_field(row, column_map[METER_FEE]) {
        Some(x) => x,
        None => return Err(value_error(row_number, "Messpreis/Mieten", "Cell has no value")),
    };
    let meterpoint = text_field(row, column_map[METERPOINT]);
    let name = text_field(row, column_map[NAME]);
    let net_due = match date_field(row, column_map[NET_DUE]) {
        Some(x) => x,
        None => return Err(value_error(row_number, "Nettofälligkeit", "Cell has no value")),
    };
    let number = text_field(row, column_map[NUMBER]);
    let price_zone = number_field(row, column_map[PRICE_ZONE]);
    let proof_of_origin_amount = match number_field(row, column_map[PROOF_OF_ORIGIN_AMOUNT]) {
        Some(x) => x,
        None => return Err(value_error(row_number, "HKN €/Betrag", "Cell has no value")),
    };
    let proof_of_origin_price = match number_field(row, column_map[PROOF_OF_ORIGIN_PRICE]) {
        Some(x) => x,
        None => return Err(value_error(row_number, "HKN Cent/kWh", "Cell has no value")),
    };
    let reactive_energy_consumption_amount = match number_field(row, column_map[REACTIVE_ENERGY_CONSUMPTION_AMOUNT]) {
        Some(x) => x,
        None => return Err(value_error(row_number, "Blindverbrauch Betrag", "Cell has no value")),
    };
    let reactive_energy_consumption_to_pay = match number_field(row, column_map[REACTIVE_ENERGY_CONSUMPTION_TO_PAY]) {
        Some(x) => x,
        None => return Err(value_error(row_number, "Blindverbrauch Verr.", "Cell has no value")),
    };
    let street = text_field(row, column_map[STREET]);
    let supplier_customer_id = text_field(row, column_map[SUPPLIER_CUSTOMER_ID]);
    let total_vat = match number_field(row, column_map[TOTAL_VAT]) {
        Some(x) => x,
        None => return Err(value_error(row_number, "Netto Ustpf.", "Cell has no value")),
    };
    let valid_from = match date_field(row, column_map[VALID_FROM]) {
        Some(x) => x,
        None => return Err(value_error(row_number, "Gültig ab", "Cell has no value")),
    };
    let valid_to = match date_field(row, column_map[VALID_TO]) {
        Some(x) => x,
        None => return Err(value_error(row_number, "Gültig bis", "Cell has no value")),
    };
    let vat = match number_field(row, column_map[VAT]) {
        Some(x) => x,
        None => return Err(value_error(row_number, "Umsatzsteuer", "Cell has no value")),
    };
    let working_price = match number_field(row, column_map[WORKING_PRICE]) {
        Some(x) => x,
        None => return Err(value_error(row_number, "Arbeitspreis Energie Cent/kWh", "Cell has no value")),
    };
    let zip = text_field(row, column_map[ZIP]);
    Ok(Row { addition, city, commission_price, contract_account, energy_amount, energy_base_amount, energy_base_price, energy_consumption, energy_contract, energy_fee, energy_law_amount, energy_law_price, energy_tranche_net_to_pay, energy_usage_fee, entry_exit_amount, entry_exit_price, grid_base_amount, grid_base_price, grid_consumption, grid_consumption_ht, grid_consumption_nt, grid_contract, grid_fee, grid_operator, grid_power, grid_power_amount, grid_tranche_net_to_pay, handling_fee_amount, handling_fee_price, invoice, invoice_date, invoice_type, meter_fee, meterpoint, name, net_due, number, price_zone, proof_of_origin_amount, proof_of_origin_price, reactive_energy_consumption_amount, reactive_energy_consumption_to_pay, street, supplier_customer_id, total_vat, valid_from, valid_to, vat, working_price, zip })
}

/// A row that ends the data.
pub open spec fn stop() -> spec_fn(Seq<nat>, Seq<Cell>) -> bool {
    |m: Seq<nat>, row: Seq<Cell>| false
}

/// How a row fails, as `row_fault` says.
pub open spec fn fault() -> spec_fn(Seq<nat>, Seq<Cell>) -> Option<(Seq<char>, Seq<char>)> {
    |m: Seq<nat>, row: Seq<Cell>| row_fault(m, row)
}

/// How a record fits its row, as `row_fits` says.
pub open spec fn fits() -> spec_fn(Row, Seq<nat>, Seq<Cell>) -> bool {
    |v: Row, m: Seq<nat>, row: Seq<Cell>| row_fits(v, m, row)
}

/// The key records are grouped by.
pub open spec fn key() -> spec_fn(Row) -> Seq<char> {
    |v: Row| v.supplier_customer_id@
}

/// Imports billing data, grouped by supplier customer id.
#[verifier::rlimit(30)]
pub fn run(sheet: &Sheet) -> (r: Result<Groups<Row>, ImportError>)
    requires
        sheet.wf(),
    ensures
        import_result(sheet, HEADER_ROW as nat, FIRST_ROW as nat, aliases(), names(), stop(), fault(), fits(), key(), r),
{
    let headers = read_headers(sheet, HEADER_ROW);
    let t = table();
    let res = resolve(&t, &headers);
    proof {
        if res is Err {
            lemma_resolve_failed(aliases(), names(), header_views(headers@), res);
        } else {
            lemma_resolve_succeeded(aliases(), names(), header_views(headers@), res);
        }
    }
    let column_map = match res {
        Ok(m) => m,
        Err(e) => return Err(e),
    };
    let ghost m = nat_map(column_map@);
    let ghost n = rows_until(sheet, FIRST_ROW as nat, m, stop());
    let ghost fs = faults(sheet, FIRST_ROW as nat, m, fault(), n);
    let mut out: Groups<Row> = Groups::new();
    let mut i: usize = FIRST_ROW;
    assert(fs.take(0) =~= Seq::<Option<(Seq<char>, Seq<char>)>>::empty());
    loop
        invariant
            sheet.wf(),
            column_map@.len() == COLUMNS,
            m == nat_map(column_map@),
            n == rows_until(sheet, FIRST_ROW as nat, m, stop()),
            fs == faults(sheet, FIRST_ROW as nat, m, fault(), n),
            FIRST_ROW <= i,
            i <= sheet.rows@.len() || i == FIRST_ROW,
            n == (i - FIRST_ROW) + rows_until(sheet, i as nat, m, stop()),
            out.wf(),
            out.entries@.len() == i - FIRST_ROW,
            first_fault(fs.take(i - FIRST_ROW)) is None,
            forall|k: int| 0 <= k < out.entries@.len() ==> fits()(#[trigger] out.entries@[k].1, m, row_cells(sheet, FIRST_ROW + k)) && out.entries@[k].0 == key()(out.entries@[k].1),
            resolved_map(aliases(), names(), header_texts(sheet, HEADER_ROW as int)) == Some(m),
        ensures
            rows_until(sheet, i as nat, m, stop()) == 0,
            out.wf(),
            out.entries@.len() == i - FIRST_ROW,
            first_fault(fs.take(i - FIRST_ROW)) is None,
            forall|k: int| 0 <= k < out.entries@.len() ==> fits()(#[trigger] out.entries@[k].1, m, row_cells(sheet, FIRST_ROW + k)) && out.entries@[k].0 == key()(out.entries@[k].1),
            resolved_map(aliases(), names(), header_texts(sheet, HEADER_ROW as int)) == Some(m),
        decreases sheet.rows@.len() - i,
    {
        if i >= sheet.rows.len() {
            break;
        }
        assert(row_wf(sheet.rows@[i as int]@)) by {
            assert forall|c: int| 0 <= c < sheet.rows@[i as int]@.len() implies (#[trigger] sheet.rows@[i as int]@[c]).wf() by {
                assert(sheet.rows@[i as int]@[c] == sheet.rows@[i as int]@[c]);
            }
        }
        assert(row_cells(sheet, i as int) == sheet.rows@[i as int]@);
        proof {
            lemma_first_fault_step(fs, i - FIRST_ROW);
        }
        let ghost k = i - FIRST_ROW;
        assert(fs[k] == row_fault(m, sheet.rows@[i as int]@));
        let rec = match transform_row(&column_map, &sheet.rows[i], i) {
            Ok(v) => v,
            Err(e) => {
                assert(first_fault(fs) == Some(k as nat));
                let ghost f = row_fault(m, sheet.rows@[i as int]@)->Some_0;
                assert(fs[k] == Some(f));
                assert(e matches ImportError::ValueError(n, l, msg) && n == FIRST_ROW + k && f == (l@, msg@));
                assert(FIRST_ROW as nat + k == i);
                return Err(e);
            },
        };
        let k = rec.supplier_customer_id.clone();
        out.add(k, rec);
        i = i + 1;
    }
    assert(fs.take(out.entries@.len() as int) =~= fs);
    Ok(out)
}

} // verus!
