use excel_import::cell::{Cell, Date, Sheet};
use excel_import::decimal::Decimal;
use excel_import::error::ImportError;
use excel_import::simple::{get_column_map, run, transform_row, SomeEnum};

fn strings(v: &[&str]) -> Vec<String> {
    v.iter().map(|s| s.to_string()).collect()
}

#[test]
fn simple_test_get_column_map_success_with_ordered_columns() {
    let result = get_column_map(strings(&["Name", "Value", "SomeDate", "WeirdDate", "SomeEnum"]));
    assert!(result.is_ok());
    let expected: Vec<usize> = vec![0, 1, 2, 3, 4];
    assert_eq!(expected, result.unwrap())
}

#[test]
fn test_get_column_map_success_with_unordered_columns() {
    let result = get_column_map(strings(&["SomeDate", "WeirdDate", "Value", "Name", "SomeEnum"]));
    assert!(result.is_ok());
    let expected: Vec<usize> = vec![3, 2, 0, 1, 4];
    assert_eq!(expected, result.unwrap())
}

#[test]
fn test_get_column_map_fails_on_missing_column() {
    let result = get_column_map(strings(&["Name", "Value", "SomeDate", "WeirdDate"]));
    assert!(result.is_err());
}

#[test]
fn missing_column_is_named() {
    let result = get_column_map(strings(&["Name", "Value", "SomeDate", "WeirdDate"]));
    match result {
        Err(ImportError::MissingHeader(name)) => assert_eq!(name, "SomeEnum"),
        other => panic!("unexpected {:?}", other),
    }
}

#[test]
fn headers_ignore_case_and_surrounding_space() {
    let a = get_column_map(strings(&[" Name ", "Value", "SomeDate", "WeirdDate", "SomeEnum"]));
    let b = get_column_map(strings(&["name", "Value", "SomeDate", "WeirdDate", "SomeEnum"]));
    let c = get_column_map(strings(&["NAME", "VALUE", " somedate", "WEIRDDATE\t", "someEnum"]));
    assert_eq!(a.unwrap(), vec![0, 1, 2, 3, 4]);
    assert_eq!(b.unwrap(), vec![0, 1, 2, 3, 4]);
    assert_eq!(c.unwrap(), vec![0, 1, 2, 3, 4]);
}

#[test]
fn permuted_headers_give_distinct_positions() {
    let r = get_column_map(strings(&["SomeEnum", "Name", "WeirdDate", "SomeDate", "Value"])).unwrap();
    assert_eq!(r, vec![1, 4, 3, 2, 0]);
    let mut sorted = r.clone();
    sorted.sort();
    sorted.dedup();
    assert_eq!(sorted.len(), 5);
}

#[test]
fn repeated_header_takes_last_position() {
    let r = get_column_map(strings(&["Name", "Value", "SomeDate", "WeirdDate", "SomeEnum", "name"]));
    assert_eq!(r.unwrap(), vec![5, 1, 2, 3, 4]);
}

#[test]
fn unknown_header_fails_with_its_text() {
    let r = get_column_map(strings(&["Name", "Colour", "Value"]));
    match r {
        Err(ImportError::UnknownHeader(h)) => assert_eq!(h, "Colour"),
        other => panic!("unexpected {:?}", other),
    }
}

fn num(s: &str) -> Cell {
    Cell::Number(Decimal::parse(s).unwrap())
}

fn text(s: &str) -> Cell {
    Cell::Text(s.to_string())
}

fn date(y: i32, m: u32, d: u32) -> Cell {
    Cell::Date(Date { year: y, month: m, day: d })
}

#[test]
fn transform_reads_every_column() {
    let map = vec![0, 1, 2, 3, 4];
    let row = vec![text("  Anna "), num("2.5"), date(2022, 1, 2), date(9999, 12, 31), text(" y ")];
    let r = transform_row(&map, &row, 3).unwrap();
    assert_eq!(r.name, Some("Anna".to_string()));
    assert_eq!(r.value, 3);
    assert_eq!(r.some_date, Date { year: 2022, month: 1, day: 2 });
    assert_eq!(r.weird_date, None);
    assert_eq!(r.some_enum, SomeEnum::Yes);
}

#[test]
fn transform_rounds_half_away_from_zero() {
    let map = vec![0, 1, 2, 3, 4];
    let row = vec![Cell::Empty, num("-2.5"), date(2022, 1, 2), date(2023, 5, 6), text("n")];
    let r = transform_row(&map, &row, 3).unwrap();
    assert_eq!(r.name, None);
    assert_eq!(r.value, -3);
    assert_eq!(r.weird_date, Some(Date { year: 2023, month: 5, day: 6 }));
    assert_eq!(r.some_enum, SomeEnum::No);
}

#[test]
fn transform_fails_on_missing_number() {
    let map = vec![0, 1, 2, 3, 4];
    let row = vec![text("a"), text("x"), date(2022, 1, 2), Cell::Empty, text("y")];
    match transform_row(&map, &row, 7) {
        Err(ImportError::ValueError(7, label, reason)) => {
            assert_eq!(label, "value");
            assert_eq!(reason, "Cell has no value");
        }
        other => panic!("unexpected {:?}", other),
    }
}

#[test]
fn transform_fails_on_unknown_flag() {
    let map = vec![0, 1, 2, 3, 4];
    let row = vec![text("a"), num("1"), date(2022, 1, 2), Cell::Empty, text("maybe")];
    match transform_row(&map, &row, 2) {
        Err(ImportError::ValueError(2, label, reason)) => {
            assert_eq!(label, "some_enum");
            assert_eq!(reason, "Unknown value in enum");
        }
        other => panic!("unexpected {:?}", other),
    }
}

#[test]
fn run_keeps_rows_in_order() {
    let sheet = Sheet {
        rows: vec![
            vec![text("Value"), text("Name"), text("SomeDate"), text("WeirdDate"), text("SomeEnum")],
            vec![num("1"), text("a"), date(2020, 1, 1), Cell::Empty, text("y")],
            vec![num("2"), text("b"), date(2020, 1, 2), Cell::Empty, text("n")],
        ],
    };
    let rows = run(&sheet).unwrap();
    assert_eq!(rows.len(), 2);
    assert_eq!(rows[0].value, 1);
    assert_eq!(rows[1].name, Some("b".to_string()));
}
