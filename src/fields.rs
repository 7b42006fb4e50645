//! Typed reading of the cells of one row: the building blocks of every
//! document's row transformation.

use vstd::prelude::*;
use crate::cell::{cell_date, cell_number, cell_string, cell_text, cell_time, Cell, Date, Time};
use crate::decimal::{abs, lemma_pow10_36, lemma_pow10_mono, pow10, Decimal};
use crate::text::{trim, trimmed};

verus! {

/// The cell at position `i` of a row; a position past its end reads as empty.
pub open spec fn at(row: Seq<Cell>, i: int) -> Cell {
    if 0 <= i < row.len() {
        row[i]
    } else {
        Cell::Empty
    }
}

/// A row is well formed when all its numbers are.
pub open spec fn row_wf(row: Seq<Cell>) -> bool {
    forall|i: int| 0 <= i < row.len() ==> (#[trigger] row[i]).wf()
}

/// The text of a text column: the cell as text, trimmed.
pub open spec fn text_value(row: Seq<Cell>, i: int) -> Seq<char> {
    trimmed(cell_text(at(row, i)))
}

pub open spec fn number_value(row: Seq<Cell>, i: int) -> Option<Decimal> {
    cell_number(at(row, i))
}

pub open spec fn date_value(row: Seq<Cell>, i: int) -> Option<Date> {
    cell_date(at(row, i))
}

pub open spec fn time_value(row: Seq<Cell>, i: int) -> Option<Time> {
    cell_time(at(row, i))
}

/// The date some sources write for "no date".
pub open spec fn is_sentinel(d: Date) -> bool {
    d.year == 9999 && d.month == 12 && d.day == 31
}

/// A date with the sentinel read as no date.
pub open spec fn without_sentinel(d: Option<Date>) -> Option<Date> {
    match d {
        Some(x) => if is_sentinel(x) {
            None
        } else {
            Some(x)
        },
        None => None,
    }
}

fn empty_cell() -> (c: Cell)
    ensures
        c == Cell::Empty,
{
    Cell::Empty
}

/// The text of the cell at `i`, trimmed.
pub fn text_field(row: &Vec<Cell>, i: usize) -> (s: String)
    requires
        row_wf(row@),
    ensures
        s@ == text_value(row@, i as int),
{
    if i < row.len() {
        let t = row[i].text();
        trim(t.as_str())
    } else {
        let e = empty_cell();
        let t = e.text();
        trim(t.as_str())
    }
}

/// The cell at `i` as text, untrimmed.
pub fn raw_text_field(row: &Vec<Cell>, i: usize) -> (s: String)
    requires
        row_wf(row@),
    ensures
        s@ == cell_text(at(row@, i as int)),
{
    if i < row.len() {
        row[i].text()
    } else {
        String::new()
    }
}

/// The text of the cell at `i`, if it is a text cell.
pub fn string_field(row: &Vec<Cell>, i: usize) -> (s: Option<String>)
    ensures
        s matches Some(t) ==> cell_string(at(row@, i as int)) == Some(t@),
        s is None <==> cell_string(at(row@, i as int)) is None,
{
    if i < row.len() {
        row[i].get_string()
    } else {
        None
    }
}

/// The number in the cell at `i`.
pub fn number_field(row: &Vec<Cell>, i: usize) -> (d: Option<Decimal>)
    requires
        row_wf(row@),
    ensures
        d == number_value(row@, i as int),
        d matches Some(x) ==> x.wf(),
{
    if i < row.len() {
        row[i].get_float()
    } else {
        None
    }
}

/// The date in the cell at `i`.
pub fn date_field(row: &Vec<Cell>, i: usize) -> (d: Option<Date>)
    ensures
        d == date_value(row@, i as int),
{
    if i < row.len() {
        row[i].as_date()
    } else {
        None
    }
}

/// The time in the cell at `i`.
pub fn time_field(row: &Vec<Cell>, i: usize) -> (t: Option<Time>)
    ensures
        t == time_value(row@, i as int),
{
    if i < row.len() {
        row[i].as_time()
    } else {
        None
    }
}

/// Reads the sentinel date `9999-12-31` as no date; passes any other on.
pub fn drop_sentinel(d: Option<Date>) -> (r: Option<Date>)
    ensures
        r == without_sentinel(d),
        d matches Some(x) && is_sentinel(x) ==> r is None,
        !(d matches Some(x) && is_sentinel(x)) ==> r == d,
{
    match d {
        Some(x) => if x.year == 9999 && x.month == 12 && x.day == 31 {
            None
        } else {
            Some(x)
        },
        None => None,
    }
}

/// The integer nearest to `m / 10^s`, halves rounded away from zero.
pub open spec fn rounded(m: int, s: nat) -> int {
    let q = ((abs(m) * 2 + pow10(s)) / (2 * pow10(s))) as int;
    if m < 0 {
        -q
    } else {
        q
    }
}

/// `v` held to the range of `i64`.
pub open spec fn saturated(v: int) -> i64 {
    if v > i64::MAX {
        i64::MAX
    } else if v < i64::MIN {
        i64::MIN
    } else {
        v as i64
    }
}

fn pow10_exec(s: u32) -> (p: u128)
    requires
        s <= 36,
    ensures
        p == pow10(s as nat),
{
    proof {
        lemma_pow10_36();
    }
    let mut p: u128 = 1;
    let mut k: u32 = 0;
    while k < s
        invariant
            k <= s <= 36,
            p == pow10(k as nat),
            pow10(36) == 1000000000000000000000000000000000000,
        decreases s - k,
    {
        proof {
            lemma_pow10_mono((k + 1) as nat, 36);
        }
        p = p * 10;
        k = k + 1;
    }
    p
}

/// The decimal rounded to the nearest integer, halves away from zero, and
/// held to the range of `i64`.
pub fn round_to_i64(d: Decimal) -> (r: i64)
    requires
        d.wf(),
    ensures
        r == saturated(rounded(d.mantissa as int, d.scale as nat)),
{
    proof {
        lemma_pow10_36();
        lemma_pow10_mono(d.scale as nat, 36);
        lemma_pow10_mono(0, d.scale as nat);
    }
    let p = pow10_exec(d.scale);
    let a: u128 = if d.mantissa < 0 {
        (-d.mantissa) as u128
    } else {
        d.mantissa as u128
    };
    assert(a as nat == abs(d.mantissa as int));
    assert(p >= 1);
    let q: u128 = (a * 2 + p) / (2 * p);
    assert(q <= a * 2 + p);
    let v: i128 = if d.mantissa < 0 {
        -(q as i128)
    } else {
        q as i128
    };
    if v > i64::MAX as i128 {
        i64::MAX
    } else if v < i64::MIN as i128 {
        i64::MIN
    } else {
        v as i64
    }
}

} // verus!
