use excel_import::cell::{Cell, Date, DateTime, Sheet, Time};
use excel_import::decimal::Decimal;
use excel_import::error::ImportError;
use excel_import::meterpoint_value::netze_ooe::meterpoint_label;
use excel_import::meterpoint_value::{detect_schema, run, Data, Schema};

fn text(s: &str) -> Cell {
    Cell::Text(s.to_string())
}

fn num(s: &str) -> Cell {
    Cell::Number(Decimal::parse(s).unwrap())
}

fn dec(s: &str) -> Option<Decimal> {
    Some(Decimal::parse(s).unwrap())
}

fn at(y: i32, mo: u32, d: u32, h: u32, mi: u32) -> DateTime {
    DateTime {
        date: Date { year: y, month: mo, day: d },
        time: Time { hour: h, minute: mi, second: 0, nanosecond: 0 },
    }
}

fn filler(n: usize) -> Vec<Cell> {
    (0..n).map(|_| Cell::Empty).collect()
}

fn check_shape(d: &Data) {
    assert_eq!(d.index.len(), d.data.len());
    for row in &d.data {
        assert_eq!(row.len(), d.columns.len());
    }
}

#[test]
fn test_meterpoint_extraction() {
    for (input, expected) in vec![
        (
            "test/lastprofil AT1234567891234567891234567891234.xlsx".to_string(),
            Ok("AT1234567891234567891234567891234".to_string()),
        ),
        (
            "test/lastprofil-at1234567891234567891234567891234.xlsx".to_string(),
            Ok("AT1234567891234567891234567891234".to_string()),
        ),
        (
            "lastprofil-at1234567891234567891234567891234.xlsx".to_string(),
            Ok("AT1234567891234567891234567891234".to_string()),
        ),
        (
            "test/AT1234567891234567891234567891234.xlsx".to_string(),
            Err("filename has no prefix lastprofil".to_string()),
        ),
        (
            "test/lastprofil AT1234567891234567891234567891234.csv".to_string(),
            Err("filename has no suffix xlsx".to_string()),
        ),
        (
            "test/lastprofil AT123456789123456789123456789123.xlsx".to_string(),
            Err("could not get meterpoint from filename 'test/lastprofil AT123456789123456789123456789123.xlsx'".to_string()),
        ),
        (
            "lastprofil-at0300000000000000000000001234567-2020.xlsx".to_string(),
            Ok("AT0300000000000000000000001234567".to_string()),
        ),
        (
            "lastprofil-at0030000000000000000000000012345-2019(1).xlsx".to_string(),
            Ok("AT0030000000000000000000000012345".to_string()),
        ),
        ("".to_string(), Err("path has no filename".to_string())),
    ] {
        let result = meterpoint_label(input);
        assert_eq!(result, expected);
    }
}

#[test]
fn meterpoint_from_duplicate_file_name() {
    let r = meterpoint_label("lastprofil-at0030000000000000000000000012345-2019(1).xlsx".to_string());
    assert_eq!(r, Ok("AT0030000000000000000000000012345".to_string()));
    let r = meterpoint_label("profil-at0030000000000000000000000012345.xlsx".to_string());
    assert_eq!(r, Err("filename has no prefix lastprofil".to_string()));
}

#[test]
fn meterpoint_by_fallback_when_separators_differ() {
    let r = meterpoint_label("LASTPROFIL  AT00300000000000000000_00000012345.XLSX".to_string());
    assert_eq!(r, Ok("AT0030000000000000000000000012345".to_string()));
}

fn wiener_sheet() -> Sheet {
    let mut rows: Vec<Vec<Cell>> = (0..14).map(|_| filler(4)).collect();
    rows[1][0] = text("Zeitpunkt");
    rows[1][1] = text("Abnahmestelle");
    rows[6][1] = text(" Zählpunkt ");
    rows[6][2] = text("AT0010000000000000001000001234567");
    rows[6][3] = text("AT0010000000000000001000001234568");
    rows[13][1] = text("Wirkverbrauch_kWh");
    rows.push(vec![Cell::DateTime(at(2021, 1, 1, 0, 15)), Cell::Empty, num("1.32"), num("2.32")]);
    rows.push(vec![Cell::DateTime(at(2021, 1, 1, 0, 30)), Cell::Empty, num("0.51"), text("n/a")]);
    Sheet { rows }
}

#[test]
fn wiener_netze_layout_is_recognised() {
    assert_eq!(detect_schema(&wiener_sheet()), Schema::WienerNetze);
}

#[test]
fn wiener_netze_readings_are_quartered() {
    let d = run(&wiener_sheet(), "x.xlsx".to_string()).unwrap();
    check_shape(&d);
    assert_eq!(
        d.columns,
        vec!["AT0010000000000000001000001234567".to_string(), "AT0010000000000000001000001234568".to_string()]
    );
    assert_eq!(d.index, vec![at(2021, 1, 1, 0, 15), at(2021, 1, 1, 0, 30)]);
    assert_eq!(d.data, vec![vec![dec("0.33"), dec("0.58")], vec![dec("0.1275"), None]]);
}

#[test]
fn unknown_layout_fails() {
    let sheet = Sheet { rows: vec![vec![text("something else")]] };
    assert_eq!(detect_schema(&sheet), Schema::Unknown);
    match run(&sheet, "x.xlsx".to_string()) {
        Err(ImportError::Error(m)) => assert_eq!(m, "Could not detect schema for meterpoint_value import"),
        _ => panic!("expected a failure"),
    }
}

#[test]
fn myelectric_stops_at_summary_row() {
    let mut sub = at(2022, 10, 1, 0, 15);
    sub.time.nanosecond = 400_000_000;
    let sheet = Sheet {
        rows: vec![
            vec![text("Timestamp"), text("AT0020000000000000000000100003400 (kWh)"), text("AT0031000000000000000000141934000")],
            vec![Cell::DateTime(at(2022, 10, 1, 0, 0)), num("2.04"), num("0.435")],
            vec![Cell::DateTime(sub), num("2.28"), num("0.435")],
            vec![text("Summe"), num("4.32"), num("0.87")],
            vec![text("not a date"), num("1"), num("1")],
        ],
    };
    assert_eq!(detect_schema(&sheet), Schema::MyElectric);
    let d = run(&sheet, "x.xlsx".to_string()).unwrap();
    check_shape(&d);
    assert_eq!(
        d.columns,
        vec!["AT0020000000000000000000100003400".to_string(), "AT0031000000000000000000141934000".to_string()]
    );
    assert_eq!(d.index, vec![at(2022, 10, 1, 0, 0), at(2022, 10, 1, 0, 15)]);
    assert_eq!(d.data, vec![vec![dec("2.04"), dec("0.435")], vec![dec("2.28"), dec("0.435")]]);
}

#[test]
fn myelectric_fails_on_bad_timestamp() {
    let sheet = Sheet {
        rows: vec![
            vec![text("Timestamp"), text("A")],
            vec![Cell::DateTime(at(2022, 10, 1, 0, 0)), num("1")],
            vec![text("later"), num("1")],
        ],
    };
    match run(&sheet, "x.xlsx".to_string()) {
        Err(ImportError::ValueError(2, label, reason)) => {
            assert_eq!(label, "Timestamp");
            assert_eq!(reason, "could not parse datetime");
        }
        _ => panic!("expected a failure"),
    }
}

#[test]
fn netze_noe_reads_text_timestamps() {
    let sheet = Sheet {
        rows: vec![
            vec![text("Werte in kW"), text("AT0020000000000000000000100151234"), text("AT0020000000000000000000100251234")],
            vec![text("01.01.2021 00:15"), num("6.870"), num("3.180")],
            vec![Cell::DateTime(at(2021, 1, 1, 0, 30)), num("6.270"), Cell::Empty],
        ],
    };
    assert_eq!(detect_schema(&sheet), Schema::NetzeNoe);
    let d = run(&sheet, "x.xlsx".to_string()).unwrap();
    check_shape(&d);
    assert_eq!(d.index, vec![at(2021, 1, 1, 0, 15), at(2021, 1, 1, 0, 30)]);
    assert_eq!(d.data, vec![vec![dec("6.870"), dec("3.180")], vec![dec("6.270"), None]]);
}

#[test]
fn netze_noe_names_unreadable_text() {
    let sheet = Sheet { rows: vec![vec![text("Werte in kW"), text("A")], vec![text("gestern"), num("1")]] };
    match run(&sheet, "x.xlsx".to_string()) {
        Err(ImportError::ValueError(1, label, reason)) => {
            assert_eq!(label, "Timestamp");
            assert_eq!(reason, "Could not parse datetime gestern");
        }
        _ => panic!("expected a failure"),
    }
}

fn ooe_sheet() -> Sheet {
    let mut rows: Vec<Vec<Cell>> = (0..2).map(|_| filler(6)).collect();
    rows[0][0] = text("Kopfdaten des Profils");
    rows[1][3] = text("Ab-Datum");
    rows[1][4] = text("Ab-Zeit");
    rows[1][5] = text("Profilwert");
    for k in 0..6u32 {
        let mut row = filler(6);
        row[3] = Cell::Date(Date { year: 2023, month: 1, day: 5 });
        row[4] = Cell::Time(Time { hour: 0, minute: 15 * k, second: 0, nanosecond: 0 });
        row[5] = num("1.623");
        rows.push(row);
    }
    rows[6][0] = text("Maßeinheit");
    rows[6][1] = text("kW");
    Sheet { rows }
}

#[test]
fn netze_ooe_takes_meterpoint_from_file_name() {
    let sheet = ooe_sheet();
    assert_eq!(detect_schema(&sheet), Schema::NetzeOoe);
    let d = run(&sheet, "var/Lastprofil AT0030000000000000000000000001234.xlsx".to_string()).unwrap();
    check_shape(&d);
    assert_eq!(d.columns, vec!["AT0030000000000000000000000001234".to_string()]);
    assert_eq!(d.index.len(), 6);
    assert_eq!(d.index[1], at(2023, 1, 5, 0, 15));
    assert_eq!(d.data[0], vec![dec("1.623")]);
}

#[test]
fn netze_ooe_fails_without_meterpoint() {
    match run(&ooe_sheet(), "var/profile.xlsx".to_string()) {
        Err(ImportError::Error(m)) => assert_eq!(m, "filename has no prefix lastprofil"),
        _ => panic!("expected a failure"),
    }
}
