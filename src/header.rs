//! Header resolution: from the header row of a sheet to the position of each
//! canonical column of a document.

use vstd::prelude::*;
use crate::error::ImportError;
use crate::text::{lower_of, to_lower, trim, trimmed};

verus! {

/// The canonical columns of a document and the header spellings that name them.
pub struct HeaderTable {
    /// Canonical column names, by column number.
    pub names: Vec<String>,
    /// Normalised header spelling and the column it names; several spellings
    /// may name one column, and the first entry for a spelling counts.
    pub aliases: Vec<(String, usize)>,
}

/// How a header is compared with the aliases: lower-cased, then trimmed.
pub open spec fn normalize(h: Seq<char>) -> Seq<char> {
    trimmed(lower_of(h))
}

/// The column of the first alias spelled `h`.
pub open spec fn lookup(al: Seq<(Seq<char>, nat)>, h: Seq<char>) -> Option<nat>
    decreases al.len(),
{
    if al.len() == 0 {
        None
    } else if al[0].0 == h {
        Some(al[0].1)
    } else {
        lookup(al.drop_first(), h)
    }
}

/// The column a raw header names.
pub open spec fn column_of(al: Seq<(Seq<char>, nat)>, h: Seq<char>) -> Option<nat> {
    lookup(al, normalize(h))
}

/// Position of the first header that names no column.
pub open spec fn first_unknown(al: Seq<(Seq<char>, nat)>, hs: Seq<Seq<char>>) -> Option<nat>
    decreases hs.len(),
{
    if hs.len() == 0 {
        None
    } else {
        match first_unknown(al, hs.drop_last()) {
            Some(i) => Some(i),
            None => if column_of(al, hs.last()) is None {
                Some((hs.len() - 1) as nat)
            } else {
                None
            },
        }
    }
}

/// Position of the last header that names column `c`.
pub open spec fn last_position(al: Seq<(Seq<char>, nat)>, hs: Seq<Seq<char>>, c: nat) -> Option<
    nat,
>
    decreases hs.len(),
{
    if hs.len() == 0 {
        None
    } else if column_of(al, hs.last()) == Some(c) {
        Some((hs.len() - 1) as nat)
    } else {
        last_position(al, hs.drop_last(), c)
    }
}

/// The first of columns `0..n` that no header names.
pub open spec fn first_missing(al: Seq<(Seq<char>, nat)>, hs: Seq<Seq<char>>, n: nat) -> Option<
    nat,
>
    decreases n,
{
    if n == 0 {
        None
    } else {
        match first_missing(al, hs, (n - 1) as nat) {
            Some(c) => Some(c),
            None => if last_position(al, hs, (n - 1) as nat) is None {
                Some((n - 1) as nat)
            } else {
                None
            },
        }
    }
}

/// The views of a list of header strings.
pub open spec fn header_views(hs: Seq<String>) -> Seq<Seq<char>> {
    hs.map_values(|h: String| h@)
}

/// What resolving the headers `hs` against the aliases `al` and the column
/// names `names` gives: the first unknown header fails; else the first column
/// without a header fails, by name; else each column gets the position of the
/// last header naming it.
pub open spec fn resolves(
    al: Seq<(Seq<char>, nat)>,
    names: Seq<Seq<char>>,
    hs: Seq<Seq<char>>,
    r: Result<Vec<usize>, ImportError>,
) -> bool {
    match first_unknown(al, hs) {
        Some(i) => r matches Err(ImportError::UnknownHeader(s)) && s@ == hs[i as int],
        None => match first_missing(al, hs, names.len()) {
            Some(c) => r matches Err(ImportError::MissingHeader(s)) && s@ == names[c as int],
            None => r matches Ok(m) && m@.len() == names.len() && forall|c: int|
                0 <= c < names.len() ==> last_position(al, hs, c as nat) == Some(
                    #[trigger] m@[c] as nat,
                ),
        },
    }
}

impl HeaderTable {
    pub open spec fn alias_view(&self) -> Seq<(Seq<char>, nat)> {
        self.aliases@.map_values(|e: (String, usize)| (e.0@, e.1 as nat))
    }

    pub open spec fn name_view(&self) -> Seq<Seq<char>> {
        self.names@.map_values(|s: String| s@)
    }

    /// Every alias names one of the columns.
    pub open spec fn wf(&self) -> bool {
        forall|k: int| 0 <= k < self.aliases@.len() ==> (#[trigger] self.aliases@[k]).1
            < self.names@.len()
    }

    /// The column that the normalised header `h` names.
    pub fn lookup(&self, h: &String) -> (r: Option<usize>)
        ensures
            r matches Some(c) ==> lookup(self.alias_view(), h@) == Some(c as nat),
            r is None <==> lookup(self.alias_view(), h@) is None,
    {
        let ghost al = self.alias_view();
        assert(al.skip(0) =~= al);
        let mut k: usize = 0;
        while k < self.aliases.len()
            invariant
                k <= self.aliases@.len() == al.len(),
                al == self.alias_view(),
                lookup(al, h@) == lookup(al.skip(k as int), h@),
            decreases self.aliases@.len() - k,
        {
            assert(al.skip(k as int).drop_first() =~= al.skip(k + 1));
            if self.aliases[k].0 == *h {
                return Some(self.aliases[k].1);
            }
            k = k + 1;
        }
        None
    }
}

/// A header lower-cased and trimmed, ready to be looked up.
pub fn normalize_header(h: &str) -> (r: String)
    ensures
        r@ == normalize(h@),
{
    let l = to_lower(h);
    trim(l.as_str())
}

proof fn lemma_take_last<A>(s: Seq<A>, i: int)
    requires
        0 <= i < s.len(),
    ensures
        s.take(i + 1).drop_last() == s.take(i),
        s.take(i + 1).last() == s[i],
        s.take(i + 1).len() == i + 1,
{
    assert(s.take(i + 1).drop_last() =~= s.take(i));
}

/// Resolves a header row against a document's header table.
pub fn resolve(table: &HeaderTable, headers: &Vec<String>) -> (r: Result<Vec<usize>, ImportError>)
    requires
        table.wf(),
    ensures
        resolves(table.alias_view(), table.name_view(), header_views(headers@), r),
{
    let ghost al = table.alias_view();
    let ghost hs = header_views(headers@);
    let n = table.names.len();
    let mut map: Vec<Option<usize>> = Vec::new();
    while map.len() < n
        invariant
            map@.len() <= n,
            forall|c: int| 0 <= c < map@.len() ==> map@[c] is None,
        decreases n - map@.len(),
    {
        map.push(None);
    }
    assert(hs.take(0) =~= Seq::<Seq<char>>::empty());
    let mut i: usize = 0;
    while i < headers.len()
        invariant
            table.wf(),
            al == table.alias_view(),
            hs == header_views(headers@),
            n == table.names@.len(),
            i <= headers@.len() == hs.len(),
            map@.len() == n,
            first_unknown(al, hs.take(i as int)) is None,
            forall|c: int|
                0 <= c < n ==> match #[trigger] map@[c] {
                    Some(p) => last_position(al, hs.take(i as int), c as nat) == Some(p as nat),
                    None => last_position(al, hs.take(i as int), c as nat) is None,
                },
        decreases headers@.len() - i,
    {
        proof {
            lemma_take_last(hs, i as int);
        }
        let norm = normalize_header(headers[i].as_str());
        match table.lookup(&norm) {
            None => {
                assert(first_unknown(al, hs.take(i + 1)) == Some(i as nat));
                assert(hs.take(i + 1).len() == i + 1);
                proof {
                    lemma_first_unknown_prefix(al, hs, (i + 1) as int);
                }
                return Err(ImportError::UnknownHeader(headers[i].clone()));
            },
            Some(c) => {
                proof {
                    lemma_lookup_in_table(al, norm@);
                    let k = choose|k: int| 0 <= k < al.len() && al[k].1 == c as nat;
                    assert(table.aliases@[k].1 < n);
                }
                map.set(c, Some(i));
            },
        }
        i = i + 1;
    }
    assert(hs.take(i as int) =~= hs);
    let mut c: usize = 0;
    while c < n
        invariant
            c <= n == table.names@.len() == map@.len(),
            al == table.alias_view(),
            hs == header_views(headers@),
            first_unknown(al, hs) is None,
            first_missing(al, hs, c as nat) is None,
            forall|k: int| 0 <= k < c ==> (#[trigger] map@[k]) is Some,
            forall|k: int|
                0 <= k < n ==> match #[trigger] map@[k] {
                    Some(p) => last_position(al, hs, k as nat) == Some(p as nat),
                    None => last_position(al, hs, k as nat) is None,
                },
        decreases n - c,
    {
        if map[c].is_none() {
            assert(first_missing(al, hs, (c + 1) as nat) == Some(c as nat));
            proof {
                lemma_first_missing_prefix(al, hs, (c + 1) as nat, n as nat);
            }
            assert(table.name_view()[c as int] == table.names@[c as int]@);
            return Err(ImportError::MissingHeader(table.names[c].clone()));
        }
        c = c + 1;
    }
    let mut out: Vec<usize> = Vec::new();
    let mut c: usize = 0;
    while c < n
        invariant
            c <= n == map@.len(),
            out@.len() == c,
            forall|k: int| 0 <= k < n ==> (#[trigger] map@[k]) is Some,
            forall|k: int| 0 <= k < c ==> Some(out@[k]) == #[trigger] map@[k],
        decreases n - c,
    {
        match map[c] {
            Some(p) => out.push(p),
            None => {},
        }
        c = c + 1;
    }
    assert forall|k: int| 0 <= k < n implies last_position(al, hs, k as nat) == Some(
        #[trigger] out@[k] as nat,
    ) by {
        assert(Some(out@[k]) == map@[k]);
    }
    Ok(out)
}

proof fn lemma_lookup_in_table(al: Seq<(Seq<char>, nat)>, h: Seq<char>)
    ensures
        lookup(al, h) matches Some(c) ==> exists|k: int| 0 <= k < al.len() && al[k].1 == c,
    decreases al.len(),
{
    if al.len() > 0 && al[0].0 != h {
        lemma_lookup_in_table(al.drop_first(), h);
        if lookup(al, h) is Some {
            let k = choose|k: int| 0 <= k < al.drop_first().len() && al.drop_first()[k].1 == lookup(al, h)->Some_0;
            assert(al[k + 1].1 == lookup(al, h)->Some_0);
        }
    }
}

proof fn lemma_first_unknown_prefix(al: Seq<(Seq<char>, nat)>, hs: Seq<Seq<char>>, i: int)
    requires
        0 <= i <= hs.len(),
        first_unknown(al, hs.take(i)) is Some,
    ensures
        first_unknown(al, hs) == first_unknown(al, hs.take(i)),
    decreases hs.len() - i,
{
    if i < hs.len() {
        lemma_take_last(hs, i);
        lemma_first_unknown_prefix(al, hs, i + 1);
    } else {
        assert(hs.take(i) =~= hs);
    }
}

proof fn lemma_first_missing_prefix(al: Seq<(Seq<char>, nat)>, hs: Seq<Seq<char>>, c: nat, n: nat)
    requires
        c <= n,
        first_missing(al, hs, c) is Some,
    ensures
        first_missing(al, hs, n) == first_missing(al, hs, c),
    decreases n - c,
{
    if c < n {
        lemma_first_missing_prefix(al, hs, c, (n - 1) as nat);
    }
}

proof fn lemma_same_norm_last_position(
    al: Seq<(Seq<char>, nat)>,
    hs1: Seq<Seq<char>>,
    hs2: Seq<Seq<char>>,
    c: nat,
)
    requires
        hs1.len() == hs2.len(),
        forall|i: int| 0 <= i < hs1.len() ==> normalize(hs1[i]) == normalize(hs2[i]),
    ensures
        last_position(al, hs1, c) == last_position(al, hs2, c),
        first_unknown(al, hs1) == first_unknown(al, hs2),
    decreases hs1.len(),
{
    if hs1.len() > 0 {
        lemma_same_norm_last_position(al, hs1.drop_last(), hs2.drop_last(), c);
        assert(normalize(hs1.last()) == normalize(hs2.last()));
    }
}

proof fn lemma_same_norm_first_missing(
    al: Seq<(Seq<char>, nat)>,
    hs1: Seq<Seq<char>>,
    hs2: Seq<Seq<char>>,
    n: nat,
)
    requires
        forall|c: nat| last_position(al, hs1, c) == last_position(al, hs2, c),
    ensures
        first_missing(al, hs1, n) == first_missing(al, hs2, n),
    decreases n,
{
    if n > 0 {
        lemma_same_norm_first_missing(al, hs1, hs2, (n - 1) as nat);
        assert(last_position(al, hs1, (n - 1) as nat) == last_position(al, hs2, (n - 1) as nat));
    }
}

/// Header resolution ignores case and surrounding white space: two header
/// rows whose headers agree once lower-cased and trimmed resolve to the same
/// column map, or both fail at the same header or the same missing column.
pub proof fn lemma_resolution_ignores_case_and_space(
    al: Seq<(Seq<char>, nat)>,
    names: Seq<Seq<char>>,
    hs1: Seq<Seq<char>>,
    hs2: Seq<Seq<char>>,
    r1: Result<Vec<usize>, ImportError>,
    r2: Result<Vec<usize>, ImportError>,
)
    requires
        resolves(al, names, hs1, r1),
        resolves(al, names, hs2, r2),
        hs1.len() == hs2.len(),
        forall|i: int| 0 <= i < hs1.len() ==> normalize(hs1[i]) == normalize(hs2[i]),
    ensures
        first_unknown(al, hs1) == first_unknown(al, hs2),
        first_missing(al, hs1, names.len()) == first_missing(al, hs2, names.len()),
        r1 is Ok <==> r2 is Ok,
        r1 matches Ok(m1) ==> (r2 matches Ok(m2) && m1@ == m2@),
        r1 matches Err(ImportError::UnknownHeader(_)) <==> r2 matches Err(
            ImportError::UnknownHeader(_),
        ),
        r1 matches Err(ImportError::MissingHeader(n1)) ==> (r2 matches Err(
            ImportError::MissingHeader(n2),
        ) && n1@ == n2@),
{
    assert forall|c: nat| last_position(al, hs1, c) == last_position(al, hs2, c) by {
        lemma_same_norm_last_position(al, hs1, hs2, c);
    }
    lemma_same_norm_last_position(al, hs1, hs2, 0);
    lemma_same_norm_first_missing(al, hs1, hs2, names.len());
    if r1 is Ok {
        let m1 = r1->Ok_0;
        let m2 = r2->Ok_0;
        assert(m1@ =~= m2@) by {
            assert forall|c: int| 0 <= c < names.len() implies m1@[c] == m2@[c] by {
                assert(last_position(al, hs1, c as nat) == Some(m1@[c] as nat));
                assert(last_position(al, hs2, c as nat) == Some(m2@[c] as nat));
            }
        }
    }
}

/// Some header of `hs` names column `c`.
pub open spec fn is_named(al: Seq<(Seq<char>, nat)>, hs: Seq<Seq<char>>, c: nat) -> bool {
    exists|i: int| 0 <= i < hs.len() && column_of(al, hs[i]) == Some(c)
}

proof fn lemma_all_known(al: Seq<(Seq<char>, nat)>, hs: Seq<Seq<char>>)
    requires
        forall|i: int| 0 <= i < hs.len() ==> column_of(al, hs[i]) is Some,
    ensures
        first_unknown(al, hs) is None,
    decreases hs.len(),
{
    if hs.len() > 0 {
        lemma_all_known(al, hs.drop_last());
        assert(column_of(al, hs[hs.len() - 1]) is Some);
    }
}

proof fn lemma_last_position_names(al: Seq<(Seq<char>, nat)>, hs: Seq<Seq<char>>, c: nat)
    ensures
        last_position(al, hs, c) matches Some(p) ==> p < hs.len() && column_of(al, hs[p as int])
            == Some(c),
        is_named(al, hs, c) ==> last_position(
            al,
            hs,
            c,
        ) is Some,
    decreases hs.len(),
{
    if hs.len() > 0 {
        lemma_last_position_names(al, hs.drop_last(), c);
        if exists|i: int| 0 <= i < hs.len() && column_of(al, hs[i]) == Some(c) {
            let i = choose|i: int| 0 <= i < hs.len() && column_of(al, hs[i]) == Some(c);
            if i < hs.len() - 1 {
                assert(hs.drop_last()[i] == hs[i]);
            }
        }
        if last_position(al, hs, c) is Some && column_of(al, hs.last()) != Some(c) {
            let p = last_position(al, hs.drop_last(), c)->Some_0;
            assert(hs.drop_last()[p as int] == hs[p as int]);
        }
    }
}

proof fn lemma_none_missing(al: Seq<(Seq<char>, nat)>, hs: Seq<Seq<char>>, n: nat)
    requires
        forall|c: nat| c < n ==> last_position(al, hs, c) is Some,
    ensures
        first_missing(al, hs, n) is None,
    decreases n,
{
    if n > 0 {
        lemma_none_missing(al, hs, (n - 1) as nat);
    }
}

/// A header row in which every header names a column and every column is
/// named, in any order, resolves: each column gets the position of a header
/// that names it, and distinct columns get distinct positions.
pub proof fn lemma_complete_headers_resolve(
    al: Seq<(Seq<char>, nat)>,
    names: Seq<Seq<char>>,
    hs: Seq<Seq<char>>,
    r: Result<Vec<usize>, ImportError>,
)
    requires
        resolves(al, names, hs, r),
        forall|i: int| 0 <= i < hs.len() ==> column_of(al, hs[i]) is Some,
        forall|c: nat| c < names.len() ==> #[trigger] is_named(al, hs, c),
    ensures
        r matches Ok(m) && m@.len() == names.len() && (forall|c: int|
            0 <= c < names.len() ==> m@[c] < hs.len() && column_of(al, hs[m@[c] as int]) == Some(
                c as nat,
            )) && (forall|c1: int, c2: int|
            0 <= c1 < names.len() && 0 <= c2 < names.len() && c1 != c2 ==> m@[c1] != m@[c2]),
{
    lemma_all_known(al, hs);
    assert forall|c: nat| c < names.len() implies last_position(al, hs, c) is Some by {
        lemma_last_position_names(al, hs, c);
    }
    lemma_none_missing(al, hs, names.len());
    let m = r->Ok_0;
    assert forall|c: int| 0 <= c < names.len() implies m@[c] < hs.len() && column_of(
        al,
        hs[m@[c] as int],
    ) == Some(c as nat) by {
        lemma_last_position_names(al, hs, c as nat);
    }
}

proof fn lemma_missing_found(al: Seq<(Seq<char>, nat)>, hs: Seq<Seq<char>>, c: nat, n: nat)
    requires
        c < n,
        last_position(al, hs, c) is None,
    ensures
        first_missing(al, hs, n) is Some,
    decreases n,
{
    if c < n - 1 {
        lemma_missing_found(al, hs, c, (n - 1) as nat);
    }
}

/// A header row of known headers that names no header for some column fails
/// with a missing-header error; no column is ever given a default position.
pub proof fn lemma_missing_column_fails(
    al: Seq<(Seq<char>, nat)>,
    names: Seq<Seq<char>>,
    hs: Seq<Seq<char>>,
    r: Result<Vec<usize>, ImportError>,
    c: nat,
)
    requires
        resolves(al, names, hs, r),
        forall|i: int| 0 <= i < hs.len() ==> column_of(al, hs[i]) is Some,
        c < names.len(),
        forall|i: int| 0 <= i < hs.len() ==> column_of(al, hs[i]) != Some(c),
    ensures
        r matches Err(ImportError::MissingHeader(_)),
{
    lemma_all_known(al, hs);
    lemma_last_position_names(al, hs, c);
    lemma_missing_found(al, hs, c, names.len());
}

} // verus!
