//! What importing a tabular document gives: the header row resolved, each
//! following row transformed into a record, the records grouped by key.

use vstd::prelude::*;
use crate::cell::{cell_string, Cell, Sheet};
use crate::error::ImportError;
use crate::grouping::Groups;
use crate::header::{first_missing, first_unknown, header_views, last_position, resolves};

verus! {

/// A column map as numbers.
pub open spec fn nat_map(m: Seq<usize>) -> Seq<nat> {
    m.map_values(|x: usize| x as nat)
}

/// The cells of row `r`; no cells where the sheet has no such row.
pub open spec fn row_cells(s: &Sheet, r: int) -> Seq<Cell> {
    if 0 <= r < s.rows@.len() {
        s.rows@[r]@
    } else {
        Seq::empty()
    }
}

/// The headers of row `r`: the text of each text cell, empty for other cells.
pub open spec fn header_texts(s: &Sheet, r: int) -> Seq<Seq<char>> {
    row_cells(s, r).map_values(
        |c: Cell|
            match cell_string(c) {
                Some(t) => t,
                None => Seq::empty(),
            },
    )
}

/// The failure that resolving `hs` ends in, if it fails.
pub open spec fn header_failure(
    al: Seq<(Seq<char>, nat)>,
    names: Seq<Seq<char>>,
    hs: Seq<Seq<char>>,
    e: ImportError,
) -> bool {
    match first_unknown(al, hs) {
        Some(i) => e matches ImportError::UnknownHeader(s) && s@ == hs[i as int],
        None => match first_missing(al, hs, names.len()) {
            Some(c) => e matches ImportError::MissingHeader(s) && s@ == names[c as int],
            None => false,
        },
    }
}

/// The column map that resolving `hs` gives, if it succeeds.
pub open spec fn resolved_map(al: Seq<(Seq<char>, nat)>, names: Seq<Seq<char>>, hs: Seq<Seq<char>>) -> Option<
    Seq<nat>,
> {
    if first_unknown(al, hs) is None && first_missing(al, hs, names.len()) is None {
        Some(Seq::new(names.len(), |c: int| last_position(al, hs, c as nat)->Some_0))
    } else {
        None
    }
}

/// The number of rows from row `r` on before the first row that `stop` marks
/// as the end of the data.
pub open spec fn rows_until(
    s: &Sheet,
    r: nat,
    m: Seq<nat>,
    stop: spec_fn(Seq<nat>, Seq<Cell>) -> bool,
) -> nat
    decreases s.rows@.len() - r,
{
    if r >= s.rows@.len() {
        0
    } else if stop(m, row_cells(s, r as int)) {
        0
    } else {
        1 + rows_until(s, r + 1, m, stop)
    }
}

/// Position of the first row that fails, if any does.
pub open spec fn first_fault(fs: Seq<Option<(Seq<char>, Seq<char>)>>) -> Option<nat>
    decreases fs.len(),
{
    if fs.len() == 0 {
        None
    } else {
        match first_fault(fs.drop_last()) {
            Some(i) => Some(i),
            None => if fs.last() is Some {
                Some((fs.len() - 1) as nat)
            } else {
                None
            },
        }
    }
}

/// The fault of each of the `n` data rows from row `first` on.
pub open spec fn faults(
    s: &Sheet,
    first: nat,
    m: Seq<nat>,
    fault: spec_fn(Seq<nat>, Seq<Cell>) -> Option<(Seq<char>, Seq<char>)>,
    n: nat,
) -> Seq<Option<(Seq<char>, Seq<char>)>> {
    Seq::new(n, |i: int| fault(m, row_cells(s, first + i)))
}

/// What transforming and grouping the data rows from row `first` on gives,
/// with the column map `m`: the rows up to the first that `stop` marks; the
/// first of them whose `fault` is a column label and reason fails the import;
/// else each row becomes, in order, a record that `fits` it, filed under `key`.
pub open spec fn records_result<R>(
    s: &Sheet,
    first: nat,
    m: Seq<nat>,
    stop: spec_fn(Seq<nat>, Seq<Cell>) -> bool,
    fault: spec_fn(Seq<nat>, Seq<Cell>) -> Option<(Seq<char>, Seq<char>)>,
    fits: spec_fn(R, Seq<nat>, Seq<Cell>) -> bool,
    key: spec_fn(R) -> Seq<char>,
    r: Result<Groups<R>, ImportError>,
) -> bool {
    let n = rows_until(s, first, m, stop);
    let fs = faults(s, first, m, fault, n);
    match first_fault(fs) {
        Some(i) => r matches Err(ImportError::ValueError(row, label, msg)) && row == first + i
            && fs[i as int] == Some((label@, msg@)),
        None => r matches Ok(g) && g.wf() && g.entries@.len() == n && forall|i: int|
            0 <= i < n ==> fits(#[trigger] g.entries@[i].1, m, row_cells(s, first + i))
                && g.entries@[i].0 == key(g.entries@[i].1),
    }
}

/// What importing a document gives: its header row `header_row` resolved
/// against the aliases `al` and column names `names`, then `records_result`
/// from row `first` on.
pub open spec fn import_result<R>(
    s: &Sheet,
    header_row: nat,
    first: nat,
    al: Seq<(Seq<char>, nat)>,
    names: Seq<Seq<char>>,
    stop: spec_fn(Seq<nat>, Seq<Cell>) -> bool,
    fault: spec_fn(Seq<nat>, Seq<Cell>) -> Option<(Seq<char>, Seq<char>)>,
    fits: spec_fn(R, Seq<nat>, Seq<Cell>) -> bool,
    key: spec_fn(R) -> Seq<char>,
    r: Result<Groups<R>, ImportError>,
) -> bool {
    let hs = header_texts(s, header_row as int);
    match resolved_map(al, names, hs) {
        None => r matches Err(e) && header_failure(al, names, hs, e),
        Some(m) => records_result(s, first, m, stop, fault, fits, key, r),
    }
}

/// What transforming the data rows from row `first` on gives, kept as a list:
/// as `records_result`, without grouping.
pub open spec fn list_result<R>(
    s: &Sheet,
    first: nat,
    m: Seq<nat>,
    stop: spec_fn(Seq<nat>, Seq<Cell>) -> bool,
    fault: spec_fn(Seq<nat>, Seq<Cell>) -> Option<(Seq<char>, Seq<char>)>,
    fits: spec_fn(R, Seq<nat>, Seq<Cell>) -> bool,
    r: Result<Vec<R>, ImportError>,
) -> bool {
    let n = rows_until(s, first, m, stop);
    let fs = faults(s, first, m, fault, n);
    match first_fault(fs) {
        Some(i) => r matches Err(ImportError::ValueError(row, label, msg)) && row == first + i
            && fs[i as int] == Some((label@, msg@)),
        None => r matches Ok(v) && v@.len() == n && forall|i: int|
            0 <= i < n ==> fits(#[trigger] v@[i], m, row_cells(s, first + i)),
    }
}

/// What importing a document into a plain list gives: as `import_result`,
/// with `list_result` for the rows.
pub open spec fn import_list_result<R>(
    s: &Sheet,
    header_row: nat,
    first: nat,
    al: Seq<(Seq<char>, nat)>,
    names: Seq<Seq<char>>,
    stop: spec_fn(Seq<nat>, Seq<Cell>) -> bool,
    fault: spec_fn(Seq<nat>, Seq<Cell>) -> Option<(Seq<char>, Seq<char>)>,
    fits: spec_fn(R, Seq<nat>, Seq<Cell>) -> bool,
    r: Result<Vec<R>, ImportError>,
) -> bool {
    let hs = header_texts(s, header_row as int);
    match resolved_map(al, names, hs) {
        None => r matches Err(e) && header_failure(al, names, hs, e),
        Some(m) => list_result(s, first, m, stop, fault, fits, r),
    }
}

/// Reads the headers of row `r`.
pub fn read_headers(s: &Sheet, r: usize) -> (v: Vec<String>)
    ensures
        header_views(v@) == header_texts(s, r as int),
{
    let mut v: Vec<String> = Vec::new();
    if r >= s.rows.len() {
        assert(header_views(v@) =~= header_texts(s, r as int));
        return v;
    }
    let mut j: usize = 0;
    while j < s.rows[r].len()
        invariant
            r < s.rows@.len(),
            j <= s.rows@[r as int]@.len(),
            v@.len() == j,
            forall|k: int|
                0 <= k < j ==> (#[trigger] v@[k])@ == header_texts(s, r as int)[k],
        decreases s.rows@[r as int]@.len() - j,
    {
        let h = match s.rows[r][j].get_string() {
            Some(t) => t,
            None => String::new(),
        };
        v.push(h);
        j = j + 1;
    }
    assert(header_views(v@) =~= header_texts(s, r as int));
    v
}

/// A failed resolution fails as `header_failure` says, and `resolved_map`
/// has no map for it.
pub proof fn lemma_resolve_failed(
    al: Seq<(Seq<char>, nat)>,
    names: Seq<Seq<char>>,
    hs: Seq<Seq<char>>,
    r: Result<Vec<usize>, ImportError>,
)
    requires
        resolves(al, names, hs, r),
        r is Err,
    ensures
        resolved_map(al, names, hs) is None,
        header_failure(al, names, hs, r->Err_0),
{
}

/// A successful resolution gives the map that `resolved_map` describes.
pub proof fn lemma_resolve_succeeded(
    al: Seq<(Seq<char>, nat)>,
    names: Seq<Seq<char>>,
    hs: Seq<Seq<char>>,
    r: Result<Vec<usize>, ImportError>,
)
    requires
        resolves(al, names, hs, r),
        r is Ok,
    ensures
        resolved_map(al, names, hs) == Some(nat_map(r->Ok_0@)),
{
    let m = r->Ok_0;
    assert(resolved_map(al, names, hs)->Some_0 =~= nat_map(m@)) by {
        assert forall|c: int| 0 <= c < names.len() implies last_position(al, hs, c as nat)->Some_0
            == nat_map(m@)[c] by {
            assert(last_position(al, hs, c as nat) == Some(m@[c] as nat));
        }
    }
}

/// One more row: either it fails, and so does the import at it, or the rows
/// so far still do not fail.
pub proof fn lemma_first_fault_step(fs: Seq<Option<(Seq<char>, Seq<char>)>>, k: int)
    requires
        0 <= k < fs.len(),
        first_fault(fs.take(k)) is None,
    ensures
        fs[k] is None ==> first_fault(fs.take(k + 1)) is None,
        fs[k] is Some ==> first_fault(fs) == Some(k as nat),
{
    assert(fs.take(k + 1).drop_last() =~= fs.take(k));
    if fs[k] is Some {
        lemma_first_fault_prefix(fs, k + 1);
    }
}

proof fn lemma_first_fault_prefix(fs: Seq<Option<(Seq<char>, Seq<char>)>>, i: int)
    requires
        0 <= i <= fs.len(),
        first_fault(fs.take(i)) is Some,
    ensures
        first_fault(fs) == first_fault(fs.take(i)),
    decreases fs.len() - i,
{
    if i < fs.len() {
        assert(fs.take(i + 1).drop_last() =~= fs.take(i));
        lemma_first_fault_prefix(fs, i + 1);
    } else {
        assert(fs.take(i) =~= fs);
    }
}

} // verus!
