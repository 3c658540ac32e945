//! The version tag of a document.
use vstd::prelude::*;

verus! {

/// The version tag of a document, and the way to take it out of one.
pub trait Version: Sized {
    /// Takes the version field out of the document `config_str`. Gives the
    /// tag and the document without the field; for a document that has no
    /// such field, no tag and the document as it is. Fails where the field
    /// is there but holds no integer.
    fn take_version(config_str: &str) -> Result<(Option<Self>, String), basic_toml::Error>;

    /// The version that the document declares.
    fn version(&self) -> i64;
}

/// `taken` is what taking the version field out of the text `text` gives.
pub open spec fn takes<Ver: Version>(
    text: Seq<char>,
    taken: Result<(Option<Ver>, String), basic_toml::Error>,
) -> bool {
    exists|config_str: &str|
        config_str@ == text && #[trigger] call_ensures(Ver::take_version, (config_str,), taken)
}

/// `v` is a version that `tag` reports.
pub open spec fn reports<Ver: Version>(tag: &Ver, v: i64) -> bool {
    call_ensures(Ver::version, (tag,), v)
}

/// `found` is the version that the tag of a document declares, if the
/// document has one.
pub open spec fn declares<Ver: Version>(tag: Option<Ver>, found: Option<i64>) -> bool {
    match tag {
        Some(t) => found is Some && reports(&t, found->Some_0),
        None => found is None,
    }
}

/// The version to resolve with: the one found in the document, else the
/// default, else none.
pub open spec fn effective_version(found: Option<i64>, default_version: Option<i64>) -> Option<
    i64,
> {
    match found {
        Some(v) => Some(v),
        None => default_version,
    }
}

/// Picks the version to resolve with. A version found in the document wins
/// over the default; the default is used only where the document has none.
pub fn version_tag(found: Option<i64>, default_version: Option<i64>) -> (tag: Option<i64>)
    ensures
        tag == effective_version(found, default_version),
{
    match found {
        Some(v) => Some(v),
        None => default_version,
    }
}

} // verus!
