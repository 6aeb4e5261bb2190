//! The two points where the engine inspects raw text through outside
//! code: whitespace trimming, and reading the `ok` member of a JSON
//! document. Both results are pure functions of the input characters
//! and are given names here; everything that decides on them is
//! verified against those names.

use vstd::prelude::*;

verus! {

/// What `str::trim` returns for the characters of `s`.
pub uninterp spec fn trim_of(s: Seq<char>) -> Seq<char>;

/// `s` is all whitespace (or empty): trimming leaves nothing.
pub open spec fn blank(s: Seq<char>) -> bool {
    trim_of(s).len() == 0
}

/// Relies on str::trim: removes leading and trailing whitespace; the
/// result depends on the characters alone.
#[verifier::external_body]
pub(crate) fn trim_str(s: &str) -> (r: &str)
    ensures
        r@ == trim_of(s@),
{
    s.trim()
}

/// `s` is blank: trimming it leaves the empty string.
pub fn is_blank(s: &str) -> (r: bool)
    ensures
        r == blank(s@),
{
    trim_str(s).is_empty()
}

/// What parsing `s` as JSON and reading its `ok` member yields:
/// `None` when `s` is not well-formed JSON; otherwise `Some(f)` where
/// `f` is `Some(b)` when the document is an object whose `ok` member
/// is the boolean `b`, and `None` otherwise.
pub uninterp spec fn json_ok_field_of(s: Seq<char>) -> Option<Option<bool>>;

/// `s` parses as a JSON document.
pub open spec fn json_well_formed(s: Seq<char>) -> bool {
    json_ok_field_of(s) is Some
}

/// Relies on serde_json::from_str::<Value>, which succeeds exactly on
/// the JSON text that parser accepts (well-formed JSON, up to its
/// nesting limit), and on Value::get / Value::as_bool, which read the
/// `ok` member of an object when it is a boolean. The result depends
/// on the characters alone.
#[verifier::external_body]
pub(crate) fn read_json_ok_field(s: &str) -> (r: Option<Option<bool>>)
    ensures
        r == json_ok_field_of(s@),
{
    match serde_json::from_str::<serde_json::Value>(s) {
        Ok(v) => Some(v.get("ok").and_then(|b| b.as_bool())),
        Err(_) => None,
    }
}

/// `s` parses as a JSON document.
pub fn json_source_well_formed(s: &str) -> (r: bool)
    ensures
        r == json_well_formed(s@),
{
    read_json_ok_field(s).is_some()
}

} // verus!
