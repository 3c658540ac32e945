//! What can go wrong while a document is read and upgraded.
use vstd::prelude::*;

verus! {

/// The error type of the TOML reader. Its values are carried through
/// untouched: nothing here looks inside one.
#[verifier::external_type_specification]
#[verifier::external_body]
pub struct ExTomlError(basic_toml::Error);

/// Why a text was not taken as a TOML document.
#[derive(Debug)]
pub enum ParseError {
    /// The text nests deeper than the reader is handed. It was not read at
    /// all.
    TooDeep,
    /// The reader refused the text. Holds the reader's own error.
    Syntax(basic_toml::Error),
}

/// The three ways in which a migration fails. None is retried.
#[derive(Debug)]
pub enum MigrateError {
    /// The text is not a TOML document that can be read.
    Parse(ParseError),
    /// The text is well-formed, but its version field could not be read as
    /// an integer, or the schema that matches its version could not take its
    /// shape. Holds the decoder's own error.
    Deserialize(basic_toml::Error),
    /// The document names no version and no default was given, or it names a
    /// version that no schema of the chain has.
    NoValidVersion,
}

} // verus!
