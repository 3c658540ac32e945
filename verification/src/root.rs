//! The oldest schema of a chain.
use crate::chain::{decodes, Migrate};
use crate::decode::FromToml;
use crate::error::MigrateError;
use core::marker::PhantomData;
use vstd::prelude::*;

verus! {

/// The first schema of a chain: the shape `S` and its version. Nothing comes
/// before it, so a document of any other version has no schema here.
pub struct Root<S> {
    /// The schema's version number.
    pub version: i64,
    /// Stands for the shape; holds nothing.
    pub shape: PhantomData<S>,
}

impl<S> Root<S> {
    /// A chain of one schema.
    pub fn new(version: i64) -> (root: Self)
        ensures
            root.version == version,
    {
        Root { version, shape: PhantomData }
    }
}

impl<S: FromToml> Migrate for Root<S> {
    type Target = S;

    open spec fn versions(&self) -> Seq<i64> {
        seq![self.version]
    }

    open spec fn decodes_target(&self, text: Seq<char>, out: Result<S, MigrateError>) -> bool {
        decodes::<S>(text, out)
    }

    open spec fn migrates(&self, version: i64, text: Seq<char>, out: Result<S, MigrateError>) -> bool {
        if version == self.version {
            decodes::<S>(text, out)
        } else {
            out == Err::<S, MigrateError>(MigrateError::NoValidVersion)
        }
    }

    open spec fn converts_from(&self, k: int, text: Seq<char>, out: Result<S, MigrateError>) -> bool {
        k == 0 && decodes::<S>(text, out)
    }

    fn target_version(&self) -> (v: i64) {
        self.version
    }

    fn knows(&self, version: i64) -> (b: bool) {
        proof {
            assert(self.versions()[0] == self.version);
        }
        version == self.version
    }

    fn is_ordered(&self) -> (b: bool) {
        true
    }

    fn migrate_from_str(&self, version: i64, config_str: &str) -> (out: Result<S, MigrateError>) {
        if version == self.version {
            match S::from_toml(config_str) {
                Ok(v) => Ok(v),
                Err(e) => Err(MigrateError::Deserialize(e)),
            }
        } else {
            Err(MigrateError::NoValidVersion)
        }
    }

    proof fn chain_is_not_empty(&self) {
    }

    proof fn newest_version_is_decoded_directly(&self, text: Seq<char>, out: Result<S, MigrateError>) {
    }

    proof fn unknown_version_is_refused(
        &self,
        version: i64,
        text: Seq<char>,
        out: Result<S, MigrateError>,
    ) {
        assert(self.versions()[0] == self.version);
    }

    proof fn migration_follows_the_chain(&self, k: int, text: Seq<char>, out: Result<S, MigrateError>) {
    }

    proof fn errors_of_the_chain(&self, version: i64, text: Seq<char>, out: Result<S, MigrateError>) {
        if self.versions().contains(version) {
            assert(version == self.version);
        }
    }
}

} // verus!
