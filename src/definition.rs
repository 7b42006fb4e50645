//! Column definitions of a document, and what the source of a new importer
//! needs to know of each column.

use vstd::prelude::*;
use crate::header::{normalize, normalize_header};
use crate::text::{chars_of, string_of};
use convert_case::Casing;

verus! {

/// The kind of value a column holds.
#[derive(Clone, Copy, Debug, PartialEq, Eq, Structural)]
pub enum Kind {
    Date,
    Time,
    String,
    Float,
    Enum,
}

/// A column as a definition file describes it.
#[derive(Debug)]
pub struct ColumnDefinition {
    pub header_name: String,
    pub header_name2: String,
    pub kind: Kind,
    pub optional: bool,
    pub key: String,
    /// For an enumerated column, the path of its type, such as `status::Status`.
    pub enum_: Option<String>,
}

/// What an importer's source needs to know of one column.
#[derive(Debug)]
pub struct Column {
    pub field_name: String,
    pub header_name: String,
    pub kind: Kind,
    pub type_hint: String,
    pub enum_name: String,
    pub enum_: Option<String>,
    pub enum_path: Option<String>,
    pub enum_mod: Option<String>,
    pub match_string: String,
    pub match_string2: String,
    pub optional: bool,
}

/// A word case that identifiers are converted to.
#[derive(Clone, Copy, Debug, PartialEq, Eq, Structural)]
pub enum TextCase {
    Snake,
    Pascal,
}

/// What `convert_case::Casing::to_case` gives for `s` in case `c`.
pub uninterp spec fn cased(s: Seq<char>, c: TextCase) -> Seq<char>;

/// Relies on `convert_case::Casing::to_case`: `s` split into words and joined
/// again in the given case.
#[verifier::external_body]
fn to_case(s: &str, c: TextCase) -> (r: String)
    ensures
        r@ == cased(s@, c),
{
    let case = match c {
        TextCase::Snake => convert_case::Case::Snake,
        TextCase::Pascal => convert_case::Case::Pascal,
    };
    s.to_case(case)
}

/// Position of the first `::` in `s` from position `i` on, or its length.
pub open spec fn separator_from(s: Seq<char>, i: nat) -> nat
    decreases s.len() - i,
{
    if i + 2 > s.len() {
        s.len()
    } else if s[i as int] == ':' && s[i as int + 1] == ':' {
        i
    } else {
        separator_from(s, i + 1)
    }
}

/// The part of a path before its first `::`.
pub open spec fn first_segment(s: Seq<char>) -> Seq<char> {
    s.take(separator_from(s, 0) as int)
}

/// The part of a path after its last `::`, splitting from the left.
pub open spec fn last_segment(s: Seq<char>) -> Seq<char>
    decreases s.len(),
{
    let p = separator_from(s, 0);
    if p + 2 > s.len() {
        s
    } else {
        last_segment(s.skip(p as int + 2))
    }
}

/// The Rust type a column's field gets.
pub open spec fn type_hint_of(kind: Kind, optional: bool, enum_path: Option<Seq<char>>) -> Seq<char> {
    if kind == Kind::Date {
        if optional {
            "Option<NaiveDate>"@
        } else {
            "NaiveDate"@
        }
    } else {
        let t = match kind {
            Kind::Time => "NaiveTime"@,
            Kind::Float => "f64"@,
            Kind::String => "String"@,
            _ => last_segment(enum_path->Some_0),
        };
        if optional {
            "Option<"@ + t + ">"@
        } else {
            t
        }
    }
}

proof fn lemma_separator_bound(s: Seq<char>, i: nat)
    ensures
        separator_from(s, i) <= s.len(),
        separator_from(s, i) < s.len() ==> separator_from(s, i) + 2 <= s.len() && i <= separator_from(s, i),
    decreases s.len() - i,
{
    if i + 2 <= s.len() && !(s[i as int] == ':' && s[i as int + 1] == ':') {
        lemma_separator_bound(s, i + 1);
    }
}

fn separator(v: &Vec<char>) -> (p: usize)
    ensures
        p == separator_from(v@, 0),
{
    let mut i: usize = 0;
    while i < v.len() && v.len() - i >= 2 && !(v[i] == ':' && v[i + 1] == ':')
        invariant
            i <= v@.len(),
            separator_from(v@, 0) == separator_from(v@, i as nat),
        decreases v@.len() - i,
    {
        i = i + 1;
    }
    if i >= v.len() || v.len() - i < 2 {
        v.len()
    } else {
        i
    }
}

fn copy_range(v: &Vec<char>, from: usize, to: usize) -> (r: Vec<char>)
    requires
        from <= to <= v@.len(),
    ensures
        r@ == v@.subrange(from as int, to as int),
{
    let mut out: Vec<char> = Vec::new();
    let mut k: usize = from;
    while k < to
        invariant
            from <= k <= to <= v@.len(),
            out@ == v@.subrange(from as int, k as int),
        decreases to - k,
    {
        out.push(v[k]);
        assert(out@ =~= v@.subrange(from as int, k + 1));
        k = k + 1;
    }
    out
}

/// The part of a path before its first `::`.
pub fn first_segment_of(s: &str) -> (r: String)
    ensures
        r@ == first_segment(s@),
{
    let v = chars_of(s);
    let p = separator(&v);
    proof {
        lemma_separator_bound(v@, 0);
    }
    let out = copy_range(&v, 0, p);
    assert(out@ =~= first_segment(s@));
    string_of(&out)
}

/// The part of a path after its last `::`.
pub fn last_segment_of(s: &str) -> (r: String)
    ensures
        r@ == last_segment(s@),
{
    let mut v = chars_of(s);
    loop
        invariant
            last_segment(s@) == last_segment(v@),
        decreases v@.len(),
    {
        let p = separator(&v);
        proof {
            lemma_separator_bound(v@, 0);
        }
        if p >= v.len() {
            return string_of(&v);
        }
        let rest = copy_range(&v, p + 2, v.len());
        assert(rest@ =~= v@.skip(p + 2));
        v = rest;
    }
}

impl ColumnDefinition {
    /// The Rust type the column's field gets: `NaiveDate`, `NaiveTime`, `f64`,
    /// `String` or the enumeration's type name, wrapped in `Option` where the
    /// column is optional.
    pub fn type_hint(&self) -> (r: String)
        requires
            self.kind == Kind::Enum ==> self.enum_ is Some,
        ensures
            r@ == type_hint_of(
                self.kind,
                self.optional,
                match self.enum_ {
                    Some(e) => Some(e@),
                    None => None,
                },
            ),
    {
        let t = match self.kind {
            Kind::Date => {
                return if self.optional {
                    String::from_str("Option<NaiveDate>")
                } else {
                    String::from_str("NaiveDate")
                };
            },
            Kind::Time => String::from_str("NaiveTime"),
            Kind::Float => String::from_str("f64"),
            Kind::String => String::from_str("String"),
            Kind::Enum => match &self.enum_ {
                Some(e) => last_segment_of(e.as_str()),
                None => String::new(),
            },
        };
        if self.optional {
            let mut w = String::from_str("Option<");
            w.append(t.as_str());
            w.append(">");
            w
        } else {
            t
        }
    }
}

impl Column {
    /// What an importer needs to know of a defined column: the field name is
    /// the key in snake case (`type` becomes `_type`), header spellings are
    /// lower-cased and trimmed, and an enumerated column's type path is split
    /// into its module and type name.
    pub fn from_definition(d: ColumnDefinition) -> (c: Column)
        requires
            d.kind == Kind::Enum ==> d.enum_ is Some,
        ensures
            c.field_name@ == (if cased(d.key@, TextCase::Snake) == "type"@ {
                "_type"@
            } else {
                cased(d.key@, TextCase::Snake)
            }),
            c.header_name@ == d.header_name@,
            c.kind == d.kind,
            c.type_hint@ == type_hint_of(
                d.kind,
                d.optional,
                match d.enum_ {
                    Some(e) => Some(e@),
                    None => None,
                },
            ),
            c.enum_name@ == cased(d.key@, TextCase::Pascal),
            c.match_string@ == normalize(d.header_name@),
            c.match_string2@ == normalize(d.header_name2@),
            c.optional == d.optional,
            d.kind == Kind::Enum ==> (c.enum_ matches Some(x) && x@ == last_segment(d.enum_->Some_0@)),
            d.kind == Kind::Enum ==> (c.enum_mod matches Some(x) && x@ == first_segment(d.enum_->Some_0@)),
            d.kind != Kind::Enum ==> c.enum_ is None && c.enum_mod is None,
            c.enum_path matches Some(x) ==> d.enum_ matches Some(y) && x@ == y@,
            c.enum_path is None <==> d.enum_ is None,
    {
        let type_hint = d.type_hint();
        let snake = to_case(d.key.as_str(), TextCase::Snake);
        let field_name = if snake == String::from_str("type") {
            String::from_str("_type")
        } else {
            snake
        };
        let (e, enum_mod) = if d.kind == Kind::Enum {
            match &d.enum_ {
                Some(p) => (Some(last_segment_of(p.as_str())), Some(first_segment_of(p.as_str()))),
                None => (None, None),
            }
        } else {
            (None, None)
        };
        let enum_path = match &d.enum_ {
            Some(p) => Some(p.clone()),
            None => None,
        };
        Column {
            field_name,
            header_name: d.header_name.clone(),
            type_hint,
            kind: d.kind,
            enum_name: to_case(d.key.as_str(), TextCase::Pascal),
            match_string: normalize_header(d.header_name.as_str()),
            match_string2: normalize_header(d.header_name2.as_str()),
            optional: d.optional,
            enum_: e,
            enum_path,
            enum_mod,
        }
    }
}

} // verus!
