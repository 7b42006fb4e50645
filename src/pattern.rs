//! Regular expression matching, and what the library reads from file names with it.

use vstd::prelude::*;
use crate::error::ImportError;

verus! {

/// What `regex::Regex::captures` gives as capture group `group` of the first
/// match of `pattern` in `text`, if the pattern compiles and matches.
pub uninterp spec fn regex_group(pattern: Seq<char>, text: Seq<char>, group: nat) -> Option<
    Seq<char>,
>;

/// Relies on `regex::Regex::new` and `regex::Regex::captures`: capture group
/// `group` of the first match of `pattern` in `text`; `None` where the pattern
/// does not compile, does not match, or the group took no part in the match.
#[verifier::external_body]
pub(crate) fn capture_group(pattern: &str, text: &str, group: usize) -> (r: Option<String>)
    ensures
        r matches Some(m) ==> regex_group(pattern@, text@, group as nat) == Some(m@),
        r is None <==> regex_group(pattern@, text@, group as nat) is None,
{
    let re = match regex::Regex::new(pattern) {
        Ok(re) => re,
        Err(_) => return None,
    };
    match re.captures(text) {
        Some(c) => match c.get(group) {
            Some(m) => Some(m.as_str().to_string()),
            None => None,
        },
        None => None,
    }
}

/// Commission statement file names carry the month they cover.
pub open spec fn commission_timeframe_pattern() -> Seq<char> {
    ".*commissions-enelteco-(?P<timeframe>[0-9]{4}-[0-9]{2})\\.xlsx?"@
}

/// Key account file names carry the day they were taken.
pub open spec fn kam_timeframe_pattern() -> Seq<char> {
    ".*enelteco-kam-(?P<timeframe>[0-9]{4}-[0-9]{2}-[0-9]{2})\\.xlsx?"@
}

/// The timeframe that a file name carries by `pattern`, or the failure.
pub open spec fn timeframe_result(pattern: Seq<char>, path: Seq<char>, r: Result<String, ImportError>) -> bool {
    match regex_group(pattern, path, 1) {
        Some(t) => r matches Ok(x) && x@ == t,
        None => r matches Err(ImportError::Error(m)) && m@ == "Could not extract timeframe from path"@,
    }
}

fn timeframe_by(pattern: &str, path: &str) -> (r: Result<String, ImportError>)
    ensures
        timeframe_result(pattern@, path@, r),
{
    match capture_group(pattern, path, 1) {
        Some(t) => Ok(t),
        None => Err(ImportError::Error(String::from_str("Could not extract timeframe from path"))),
    }
}

/// The month, as `YYYY-MM`, that a commission statement's file name carries.
pub fn commission_timeframe(path: &str) -> (r: Result<String, ImportError>)
    ensures
        timeframe_result(commission_timeframe_pattern(), path@, r),
{
    timeframe_by(".*commissions-enelteco-(?P<timeframe>[0-9]{4}-[0-9]{2})\\.xlsx?", path)
}

/// The day, as `YYYY-MM-DD`, that a key account file's name carries.
pub fn kam_timeframe(path: &str) -> (r: Result<String, ImportError>)
    ensures
        timeframe_result(kam_timeframe_pattern(), path@, r),
{
    timeframe_by(".*enelteco-kam-(?P<timeframe>[0-9]{4}-[0-9]{2}-[0-9]{2})\\.xlsx?", path)
}

} // verus!
