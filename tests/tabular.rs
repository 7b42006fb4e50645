use excel_import::cell::{Cell, Date, DateTime, Sheet, Time};
use excel_import::commission;
use excel_import::contact_attempt;
use excel_import::contact_attempt::contact_type::ContactType;
use excel_import::contact_attempt::rating::Rating;
use excel_import::contact_attempt::result::Result_;
use excel_import::contact_attempt::status::Status;
use excel_import::customer_tag;
use excel_import::decimal::Decimal;
use excel_import::error::ImportError;
use excel_import::kam;
use excel_import::pattern::{commission_timeframe, kam_timeframe};

fn text(s: &str) -> Cell {
    Cell::Text(s.to_string())
}

fn num(s: &str) -> Cell {
    Cell::Number(Decimal::parse(s).unwrap())
}

fn date(y: i32, m: u32, d: u32) -> Cell {
    Cell::Date(Date { year: y, month: m, day: d })
}

const COMMISSION_HEADERS: [&str; 14] = [
    "Sparte", "Abrmenge", "Vertragskonto", "TWährg", "Buch.dat.", "Zählpunkt", "Name", "Nettobetrag",
    "Preisbetrag", "Druckbeleg", "Stgrbt", "Geschäftspartner", "Gültig ab", "Gültig bis",
];

fn commission_row(customer: &str, net: &str, stgrbt: &str) -> Vec<Cell> {
    vec![
        text("Strom"), num("30343"), text("123456789"), text("EUR"), date(2022, 8, 16),
        text("AT0010000000000000001000004107355"), text("Company"), num(net), text("0.00044"),
        text("300051234"), text(stgrbt), text(customer), date(2021, 5, 1), date(2021, 12, 31),
    ]
}

#[test]
fn commission_stops_at_management_fee() {
    let mut rows: Vec<Vec<Cell>> = (0..6).map(|_| vec![text("report")]).collect();
    rows.push(COMMISSION_HEADERS.iter().map(|h| text(h)).collect());
    rows.push(commission_row("123456789", "13.35092", "SBPROV"));
    rows.push(commission_row("987", "1", "SBPROV"));
    rows.push(commission_row("123456789", "8", "SBPROV"));
    let mut fee = vec![Cell::Empty; 14];
    fee[10] = text("Management Fee");
    rows.push(fee);
    rows.push(commission_row("123456789", "99", "SBPROV"));
    let groups = commission::run(&Sheet { rows }).unwrap();
    let mine = groups.get(&"123456789".to_string()).unwrap();
    assert_eq!(mine.len(), 2);
    assert_eq!(mine[0].net_amount, "13.35092");
    assert_eq!(mine[1].net_amount, "8");
    assert_eq!(mine[0].currency, "EUR");
    assert_eq!(mine[0].billing_amount, Decimal::parse("30343").unwrap());
    assert_eq!(mine[0].entry_date, Date { year: 2022, month: 8, day: 16 });
    assert_eq!(mine[0]._type, "Strom");
    assert_eq!(groups.get(&"987".to_string()).unwrap().len(), 1);
    assert_eq!(groups.keys, vec!["123456789".to_string(), "987".to_string()]);
}

#[test]
fn commission_fails_on_missing_amount() {
    let mut rows: Vec<Vec<Cell>> = (0..6).map(|_| vec![]).collect();
    rows.push(COMMISSION_HEADERS.iter().map(|h| text(h)).collect());
    let mut bad = commission_row("1", "1", "SBPROV");
    bad[1] = text("none");
    rows.push(bad);
    match commission::run(&Sheet { rows }) {
        Err(ImportError::ValueError(7, label, reason)) => {
            assert_eq!(label, "Abrmenge");
            assert_eq!(reason, "Cell has no value");
        }
        _ => panic!("expected a failure"),
    }
}

#[test]
fn commission_header_row_must_be_complete() {
    let mut rows: Vec<Vec<Cell>> = (0..6).map(|_| vec![]).collect();
    rows.push(COMMISSION_HEADERS[..13].iter().map(|h| text(h)).collect());
    match commission::run(&Sheet { rows }) {
        Err(ImportError::MissingHeader(name)) => assert_eq!(name, "ValidTo"),
        _ => panic!("expected a failure"),
    }
}

#[test]
fn customer_tags_are_grouped_by_customer() {
    let sheet = Sheet {
        rows: vec![
            vec![text("Kunden ID"), text("Tag ID"), text("Tag Wert")],
            vec![num("1"), text("a"), text("x")],
            vec![num("2"), text("b"), text("y")],
            vec![num("2"), text("c"), text(" z ")],
        ],
    };
    let groups = customer_tag::run(&sheet).unwrap();
    assert_eq!(groups.get(&"1".to_string()).unwrap().len(), 1);
    let two = groups.get(&"2".to_string()).unwrap();
    assert_eq!(two.len(), 2);
    assert_eq!(two[1].tag_value, "z");
    assert!(groups.get(&"3".to_string()).is_none());
}

#[test]
fn contact_values_are_read_case_insensitively() {
    assert_eq!(ContactType::from_excel_value(" Persönlich ".to_string()), Ok(Some(ContactType::Personally)));
    assert_eq!(ContactType::from_excel_value("".to_string()), Ok(None));
    assert_eq!(ContactType::from_excel_value("Fax".to_string()), Err("Fax".to_string()));
    assert_eq!(Rating::from_excel_value("Eher gut".to_string()), Ok(Some(Rating::RatherGood)));
    assert_eq!(Result_::from_excel_value("Datenanforderung".to_string()), Ok(Some(Result_::DataRequest)));
    assert_eq!(Status::from_excel_value("ERLEDIGT".to_string()), Ok(Some(Status::Done)));
}

fn contact_sheet(rating: &str, status: &str) -> Sheet {
    Sheet {
        rows: vec![
            ["ContactType", "CreatedBy", "Rückmeldung", "ProjectContactId", "Bewertung", "Ergebnis", "Wiedervorlage Datum", "Wiedervorlage Zeit", "Status"]
                .iter()
                .map(|h| text(h))
                .collect(),
            vec![
                text("Telefon"), text("me"), text("ok"), num("1"), text(rating), text("Termin vereinbart"),
                date(2023, 2, 1), Cell::Time(Time { hour: 9, minute: 30, second: 0, nanosecond: 0 }), text(status),
            ],
        ],
    }
}

#[test]
fn contact_attempt_joins_retry_date_and_time() {
    let groups = contact_attempt::run(&contact_sheet("", "zu erledigen")).unwrap();
    let rows = groups.get(&"1".to_string()).unwrap();
    assert_eq!(rows.len(), 1);
    assert_eq!(rows[0].contact_type, ContactType::Phone);
    assert_eq!(rows[0].rating, None);
    assert_eq!(rows[0].result, Result_::Appointment);
    assert_eq!(rows[0].status, Status::Todo);
    let expected = DateTime {
        date: Date { year: 2023, month: 2, day: 1 },
        time: Time { hour: 9, minute: 30, second: 0, nanosecond: 0 },
    };
    assert_eq!(rows[0].retry, Some(expected));
}

#[test]
fn contact_attempt_reports_unknown_values() {
    match contact_attempt::run(&contact_sheet("prima", "erledigt")) {
        Err(ImportError::ValueError(1, label, reason)) => {
            assert_eq!(label, "Bewertung");
            assert_eq!(reason, "prima");
        }
        _ => panic!("expected a failure"),
    }
    match contact_attempt::run(&contact_sheet("gut", "")) {
        Err(ImportError::ValueError(1, label, reason)) => {
            assert_eq!(label, "status");
            assert_eq!(reason, "Cell has no value");
        }
        _ => panic!("expected a failure"),
    }
}

#[test]
fn kam_reads_sentinel_out_date_as_none() {
    let table = kam::table();
    let mut header: Vec<Cell> = Vec::new();
    for name in 0..kam::COLUMNS {
        let alias = table.aliases.iter().find(|a| a.1 == name).unwrap();
        header.push(text(&alias.0));
    }
    let mut row = vec![text("x"); kam::COLUMNS];
    row[kam::CONSUMPTION_AT_CHANGE] = num("100");
    row[kam::CONSUMPTION_FORECAST] = num("200");
    row[kam::IN_DATE] = date(2020, 1, 1);
    row[kam::SUPPLIER_CUSTOMER_ID] = text("10051234");
    let mut first = row.clone();
    first[kam::OUT_DATE] = date(9999, 12, 31);
    let mut second = row.clone();
    second[kam::OUT_DATE] = date(2023, 12, 31);
    let groups = kam::run(&Sheet { rows: vec![header, first, second] }).unwrap();
    let rows = groups.get(&"10051234".to_string()).unwrap();
    assert_eq!(rows.len(), 2);
    assert_eq!(rows[0].out_date, None);
    assert_eq!(rows[1].out_date, Some(Date { year: 2023, month: 12, day: 31 }));
}

#[test]
fn timeframes_come_from_file_names() {
    assert_eq!(commission_timeframe("var/commissions-enelteco-2022-08.xlsx").unwrap(), "2022-08");
    assert_eq!(kam_timeframe("in/enelteco-kam-2023-12-31.xls").unwrap(), "2023-12-31");
    match commission_timeframe("var/commission.xlsx") {
        Err(ImportError::Error(m)) => assert_eq!(m, "Could not extract timeframe from path"),
        _ => panic!("expected a failure"),
    }
}
