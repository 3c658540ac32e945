//! The first step of every migration: is the text TOML at all?
//!
//! The text is read once with every value ignored. The reader has no limit
//! on nesting and calls itself for every level, so it is handed only texts
//! that nest no deeper than [`DEPTH_LIMIT`](crate::depth::DEPTH_LIMIT); any
//! other is refused unread.
use crate::depth::{is_shallow, within_depth_limit};
use crate::error::ParseError;
use vstd::prelude::*;

verus! {

/// Whether `text` is a well-formed TOML document, as the reader judges it:
/// reading it while ignoring every value succeeds.
pub uninterp spec fn toml_well_formed(text: Seq<char>) -> bool;

/// Calls `basic_toml::from_str` with `serde::de::IgnoredAny` as the shape to
/// read, which takes any value and keeps none. The reader first splits the
/// whole text into tables and then walks every key and value, so the call
/// succeeds exactly on the texts it accepts as TOML; that set of texts is
/// what `toml_well_formed` names. On failure the reader's error is handed on.
///
/// The reader calls itself without a bound: while it splits the text, once
/// for each array or inline table inside another and once for each part of
/// a dotted key; while it walks, once more for each of these and once for
/// each part of the table header above. A text that is some hundred levels
/// deep exhausts the stack. Hence the `requires`: the levels that the scan
/// counts are these, so the reader descends no deeper than the limit.
#[verifier::external_body]
pub(crate) fn read_ignoring_values(text: &str) -> (r: Result<(), basic_toml::Error>)
    requires
        within_depth_limit(text),
    ensures
        r.is_ok() == toml_well_formed(text@),
{
    match basic_toml::from_str::<serde::de::IgnoredAny>(text) {
        Ok(_) => Ok(()),
        Err(e) => Err(e),
    }
}

/// `r` is the verdict on `text`: too deep to be read, refused by the
/// reader, or a TOML document.
pub open spec fn judges(text: &str, r: Result<(), ParseError>) -> bool {
    match r {
        Ok(_) => within_depth_limit(text) && toml_well_formed(text@),
        Err(ParseError::TooDeep) => !within_depth_limit(text),
        Err(ParseError::Syntax(_)) => within_depth_limit(text) && !toml_well_formed(text@),
    }
}

/// Says whether `text` is a TOML document that can be read. A text that
/// nests deeper than the limit is refused without being read; any other is
/// read once, with every value ignored.
pub fn check_syntax(text: &str) -> (r: Result<(), ParseError>)
    ensures
        judges(text, r),
{
    if !is_shallow(text) {
        return Err(ParseError::TooDeep);
    }
    match read_ignoring_values(text) {
        Ok(_) => Ok(()),
        Err(e) => Err(ParseError::Syntax(e)),
    }
}

} // verus!
