use excel_import::cell::{Cell, Date, DateTime, Time};
use excel_import::decimal::Decimal;
use excel_import::error::ImportError;
use excel_import::fields::drop_sentinel;
use excel_import::header::normalize_header;
use excel_import::text::trim;

#[test]
fn quarter_of_power_is_energy() {
    let d = Decimal::parse("1.32").unwrap();
    assert_eq!(d.quarter(), Decimal::parse("0.33").unwrap());
    assert_eq!(d.quarter().to_text(), "0.33");
}

#[test]
fn quarter_adds_digits_where_needed() {
    assert_eq!(Decimal::parse("0.01").unwrap().quarter().to_text(), "0.0025");
    assert_eq!(Decimal::parse("2.32").unwrap().quarter().to_text(), "0.58");
    assert_eq!(Decimal::parse("-3").unwrap().quarter().to_text(), "-0.75");
    assert_eq!(Decimal::parse("8").unwrap().quarter().to_text(), "2");
}

#[test]
fn decimals_read_and_print_as_written() {
    for s in ["0", "13.35092", "0.00044", "-87.1299", "30343", "159.8535"] {
        assert_eq!(Decimal::parse(s).unwrap().to_text(), s);
    }
    let d = Decimal::parse("13.35092").unwrap();
    assert_eq!(d, Decimal { mantissa: 1335092, scale: 5 });
}

#[test]
fn non_numerals_are_refused() {
    for s in ["", "-", "1.", ".5", "1e5", "abc", "1.2.3", "NaN", "inf"] {
        assert_eq!(Decimal::parse(s), None, "{}", s);
    }
    assert_eq!(Decimal::parse("1234567890123456789012345678901234567"), None);
}

#[test]
fn sentinel_date_reads_as_none() {
    let sentinel = Date { year: 9999, month: 12, day: 31 };
    let other = Date { year: 2023, month: 12, day: 31 };
    assert_eq!(drop_sentinel(Some(sentinel)), None);
    assert_eq!(drop_sentinel(Some(other)), Some(other));
    assert_eq!(drop_sentinel(None), None);
}

#[test]
fn cells_read_as_text() {
    assert_eq!(Cell::Int(-42).text(), "-42");
    assert_eq!(Cell::Number(Decimal::parse("8").unwrap()).text(), "8");
    assert_eq!(Cell::Bool(true).text(), "true");
    assert_eq!(Cell::Empty.text(), "");
    assert_eq!(Cell::Date(Date { year: 2021, month: 5, day: 1 }).text(), "2021-05-01");
    let dt = DateTime {
        date: Date { year: 2021, month: 1, day: 1 },
        time: Time { hour: 0, minute: 15, second: 0, nanosecond: 0 },
    };
    assert_eq!(Cell::DateTime(dt).text(), "2021-01-01 00:15:00");
    assert_eq!(Cell::Time(dt.time).text(), "00:15:00");
}

#[test]
fn typed_accessors() {
    let dt = DateTime {
        date: Date { year: 2021, month: 1, day: 1 },
        time: Time { hour: 1, minute: 2, second: 3, nanosecond: 400 },
    };
    let c = Cell::DateTime(dt);
    assert_eq!(c.as_date(), Some(dt.date));
    assert_eq!(c.as_time(), Some(dt.time));
    assert_eq!(c.as_datetime(), Some(dt));
    assert_eq!(c.get_float(), None);
    assert_eq!(Cell::Text("x".to_string()).get_string(), Some("x".to_string()));
    assert_eq!(Cell::Int(3).get_string(), None);
    assert_eq!(dt.whole_seconds().time.nanosecond, 0);
}

#[test]
fn headers_are_lowercased_and_trimmed() {
    assert_eq!(normalize_header(" TWährg "), "twährg");
    assert_eq!(normalize_header("Gültig AB"), "gültig ab");
    assert_eq!(trim("\u{a0} x y\u{3000}"), "x y");
}

#[test]
fn messages() {
    let e = ImportError::ValueError(12, "Abrmenge".to_string(), "Cell has no value".to_string());
    assert_eq!(e.message(), "Value 'Cell has no value' at row 12 column Abrmenge");
    assert_eq!(ImportError::UnknownHeader("x".to_string()).message(), "Unknown header name x found");
    assert_eq!(ImportError::MissingHeader("Name".to_string()).message(), "Missing header name Name");
    assert_eq!(ImportError::UnknownImport("y".to_string()).message(), "Unknown import type y");
    assert_eq!(ImportError::SheetNotFound("s".to_string()).message(), "Could not find sheet with name s");
    assert_eq!(ImportError::Error("plain".to_string()).message(), "plain");
}
