//! Decoding a value from TOML text.
use vstd::prelude::*;

verus! {

/// A shape that a TOML document can be decoded into: a schema of a chain.
/// The document it is handed no longer holds the version field.
pub trait FromToml: Sized {
    /// Decodes `config_str` in this shape, or says why it does not fit.
    fn from_toml(config_str: &str) -> Result<Self, basic_toml::Error>;
}

} // verus!
