//! Worksheet cells and the grid they form.

use vstd::prelude::*;
use crate::decimal::{
    abs, decimal_text, digits_padded, lemma_pow10_36, padded_digits, push_all, Decimal,
};
use crate::text::string_of;
use chrono::{Datelike, Timelike};

verus! {

/// A calendar date.
#[derive(Clone, Copy, Debug, PartialEq, Eq, Structural)]
pub struct Date {
    pub year: i32,
    pub month: u32,
    pub day: u32,
}

/// A time of day.
#[derive(Clone, Copy, Debug, PartialEq, Eq, Structural)]
pub struct Time {
    pub hour: u32,
    pub minute: u32,
    pub second: u32,
    pub nanosecond: u32,
}

/// A date with a time of day.
#[derive(Clone, Copy, Debug, PartialEq, Eq, Structural)]
pub struct DateTime {
    pub date: Date,
    pub time: Time,
}

impl DateTime {
    /// The same instant without its fraction of a second.
    pub fn whole_seconds(&self) -> (r: DateTime)
        ensures
            r.date == self.date,
            r.time.hour == self.time.hour,
            r.time.minute == self.time.minute,
            r.time.second == self.time.second,
            r.time.nanosecond == 0,
    {
        DateTime {
            date: self.date,
            time: Time {
                hour: self.time.hour,
                minute: self.time.minute,
                second: self.time.second,
                nanosecond: 0,
            },
        }
    }
}

/// What `chrono::NaiveDateTime::parse_from_str` reads from text `s` with the
/// format `fmt`, if anything.
pub uninterp spec fn parsed_datetime(s: Seq<char>, fmt: Seq<char>) -> Option<DateTime>;

/// Relies on `chrono::NaiveDateTime::parse_from_str`: reads a date and time
/// from text by a strftime-like format; `None` where the text does not fit it.
#[verifier::external_body]
pub(crate) fn parse_datetime(s: &str, fmt: &str) -> (r: Option<DateTime>)
    ensures
        r == parsed_datetime(s@, fmt@),
{
    match chrono::NaiveDateTime::parse_from_str(s, fmt) {
        Ok(d) => Some(DateTime {
            date: Date { year: d.year(), month: d.month(), day: d.day() },
            time: Time { hour: d.hour(), minute: d.minute(), second: d.second(), nanosecond: d.nanosecond() },
        }),
        Err(_) => None,
    }
}

/// One value of a worksheet, as the spreadsheet reader reports it.
#[derive(Clone, Debug)]
pub enum Cell {
    Empty,
    Text(String),
    Int(i64),
    Number(Decimal),
    Bool(bool),
    Date(Date),
    Time(Time),
    DateTime(DateTime),
    /// An error value or another kind of cell that carries no readable value;
    /// the text is what the reader shows for it.
    Error(String),
}

pub open spec fn two_digits(n: u32) -> Seq<char> {
    padded_digits(n as nat, 1)
}

pub open spec fn date_text(d: Date) -> Seq<char> {
    (if d.year < 0 {
        seq!['-']
    } else {
        Seq::empty()
    }) + padded_digits(abs(d.year as int), 3) + seq!['-'] + two_digits(d.month) + seq!['-']
        + two_digits(d.day)
}

pub open spec fn time_text(t: Time) -> Seq<char> {
    two_digits(t.hour) + seq![':'] + two_digits(t.minute) + seq![':'] + two_digits(t.second)
}

pub open spec fn datetime_text(d: DateTime) -> Seq<char> {
    date_text(d.date) + seq![' '] + time_text(d.time)
}

/// How a cell reads as text.
pub open spec fn cell_text(c: Cell) -> Seq<char> {
    match c {
        Cell::Empty => Seq::empty(),
        Cell::Text(s) => s@,
        Cell::Int(i) => decimal_text(i as int, 0),
        Cell::Number(d) => d.text(),
        Cell::Bool(b) => if b {
            "true"@
        } else {
            "false"@
        },
        Cell::Date(d) => date_text(d),
        Cell::Time(t) => time_text(t),
        Cell::DateTime(d) => datetime_text(d),
        Cell::Error(s) => s@,
    }
}

pub open spec fn cell_string(c: Cell) -> Option<Seq<char>> {
    match c {
        Cell::Text(s) => Some(s@),
        _ => None,
    }
}

pub open spec fn cell_number(c: Cell) -> Option<Decimal> {
    match c {
        Cell::Number(d) => Some(d),
        _ => None,
    }
}

pub open spec fn cell_datetime(c: Cell) -> Option<DateTime> {
    match c {
        Cell::DateTime(d) => Some(d),
        _ => None,
    }
}

pub open spec fn cell_date(c: Cell) -> Option<Date> {
    match c {
        Cell::DateTime(d) => Some(d.date),
        Cell::Date(d) => Some(d),
        _ => None,
    }
}

pub open spec fn cell_time(c: Cell) -> Option<Time> {
    match c {
        Cell::DateTime(d) => Some(d.time),
        Cell::Time(t) => Some(t),
        _ => None,
    }
}

fn append_two_digits(out: &mut Vec<char>, n: u32)
    ensures
        final(out)@ == old(out)@ + two_digits(n),
{
    let d = digits_padded(n as u128, 1);
    push_all(out, &d);
}

fn append_date(out: &mut Vec<char>, d: &Date)
    ensures
        final(out)@ == old(out)@ + date_text(*d),
{
    let ghost start = out@;
    if d.year < 0 {
        out.push('-');
    }
    let y: u128 = if d.year < 0 {
        (-(d.year as i64)) as u128
    } else {
        d.year as u128
    };
    let yd = digits_padded(y, 3);
    push_all(out, &yd);
    out.push('-');
    append_two_digits(out, d.month);
    out.push('-');
    append_two_digits(out, d.day);
    assert(out@ =~= start + date_text(*d));
}

fn append_time(out: &mut Vec<char>, t: &Time)
    ensures
        final(out)@ == old(out)@ + time_text(*t),
{
    let ghost start = out@;
    append_two_digits(out, t.hour);
    out.push(':');
    append_two_digits(out, t.minute);
    out.push(':');
    append_two_digits(out, t.second);
    assert(out@ =~= start + time_text(*t));
}

impl Cell {
    pub open spec fn wf(self) -> bool {
        self matches Cell::Number(d) ==> d.wf()
    }

    /// The cell as text: numbers in decimal notation, dates as `YYYY-MM-DD`,
    /// times as `HH:MM:SS`, an empty cell as the empty string.
    pub fn text(&self) -> (r: String)
        requires
            self.wf(),
        ensures
            r@ == cell_text(*self),
    {
        match self {
            Cell::Empty => String::new(),
            Cell::Text(s) => s.clone(),
            Cell::Int(i) => {
                proof {
                    lemma_pow10_36();
                }
                let d = Decimal { mantissa: *i as i128, scale: 0 };
                d.to_text()
            },
            Cell::Number(d) => d.to_text(),
            Cell::Bool(b) => if *b {
                String::from_str("true")
            } else {
                String::from_str("false")
            },
            Cell::Date(d) => {
                let mut out: Vec<char> = Vec::new();
                append_date(&mut out, d);
                assert(out@ =~= date_text(*d));
                string_of(&out)
            },
            Cell::Time(t) => {
                let mut out: Vec<char> = Vec::new();
                append_time(&mut out, t);
                assert(out@ =~= time_text(*t));
                string_of(&out)
            },
            Cell::DateTime(d) => {
                let mut out: Vec<char> = Vec::new();
                append_date(&mut out, &d.date);
                out.push(' ');
                append_time(&mut out, &d.time);
                assert(out@ =~= datetime_text(*d));
                string_of(&out)
            },
            Cell::Error(s) => s.clone(),
        }
    }

    /// The text of a text cell.
    pub fn get_string(&self) -> (r: Option<String>)
        ensures
            r matches Some(s) ==> cell_string(*self) == Some(s@),
            r is None <==> cell_string(*self) is None,
    {
        match self {
            Cell::Text(s) => Some(s.clone()),
            _ => None,
        }
    }

    /// The number of a number cell.
    pub fn get_float(&self) -> (r: Option<Decimal>)
        ensures
            r == cell_number(*self),
    {
        match self {
            Cell::Number(d) => Some(*d),
            _ => None,
        }
    }

    /// The instant of a date-and-time cell.
    pub fn as_datetime(&self) -> (r: Option<DateTime>)
        ensures
            r == cell_datetime(*self),
    {
        match self {
            Cell::DateTime(d) => Some(*d),
            _ => None,
        }
    }

    /// The date of a date or date-and-time cell.
    pub fn as_date(&self) -> (r: Option<Date>)
        ensures
            r == cell_date(*self),
    {
        match self {
            Cell::DateTime(d) => Some(d.date),
            Cell::Date(d) => Some(*d),
            _ => None,
        }
    }

    /// The time of a time or date-and-time cell.
    pub fn as_time(&self) -> (r: Option<Time>)
        ensures
            r == cell_time(*self),
    {
        match self {
            Cell::DateTime(d) => Some(d.time),
            Cell::Time(t) => Some(*t),
            _ => None,
        }
    }
}

/// A worksheet: rows of cells, addressed from the top left corner.
pub struct Sheet {
    pub rows: Vec<Vec<Cell>>,
}

impl Sheet {
    /// Every number in the sheet is a well-formed decimal.
    pub open spec fn wf(&self) -> bool {
        forall|r: int, c: int|
            0 <= r < self.rows@.len() && 0 <= c < self.rows@[r]@.len() ==> (
            #[trigger] self.rows@[r]@[c]).wf()
    }

    pub open spec fn cell(&self, r: int, c: int) -> Option<Cell> {
        if 0 <= r < self.rows@.len() && 0 <= c < self.rows@[r]@.len() {
            Some(self.rows@[r]@[c])
        } else {
            None
        }
    }

    /// The cell at row `r` and column `c`, if the sheet has one there.
    pub fn get_value(&self, r: usize, c: usize) -> (v: Option<&Cell>)
        ensures
            v matches Some(x) ==> self.cell(r as int, c as int) == Some(*x),
            v is None <==> self.cell(r as int, c as int) is None,
    {
        if r < self.rows.len() && c < self.rows[r].len() {
            Some(&self.rows[r][c])
        } else {
            None
        }
    }
}

} // verus!
