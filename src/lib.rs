//! Tabular spreadsheet import: header resolution, typed row transformation,
//! grouping, and detection and normalisation of interval meter readings.

pub mod cell;
pub mod commission;
pub mod contact_attempt;
pub mod customer_tag;
pub mod datentraeger;
pub mod decimal;
pub mod definition;
pub mod error;
pub mod fields;
pub mod grouping;
pub mod header;
pub mod kam;
pub mod meterpoint_value;
pub mod pattern;
pub mod records;
pub mod sap;
pub mod simple;
pub mod text;
