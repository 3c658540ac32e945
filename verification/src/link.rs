//! A later schema of a chain, and the chain that came before it.
use crate::chain::{decodes, increasing_after_push, upgrades, Migrate};
use crate::decode::FromToml;
use crate::error::MigrateError;
use core::marker::PhantomData;
use vstd::prelude::*;

verus! {

/// A chain with one more schema at its end: the chain up to the schema
/// before, and the new schema's shape `S` and version. `S` is built from the
/// shape before it by its `From`.
pub struct Link<S, P> {
    /// The chain that ends in the schema before this one.
    pub earlier: P,
    /// The new schema's version number.
    pub version: i64,
    /// Stands for the new shape; holds nothing.
    pub shape: PhantomData<S>,
}

impl<S, P> Link<S, P> {
    /// Extends `earlier` by one schema.
    pub fn new(earlier: P, version: i64) -> (link: Self)
        ensures
            link.earlier == earlier,
            link.version == version,
    {
        Link { earlier, version, shape: PhantomData }
    }
}

impl<S, P> Migrate for Link<S, P> where P: Migrate, S: FromToml + From<P::Target> {
    type Target = S;

    open spec fn versions(&self) -> Seq<i64> {
        self.earlier.versions().push(self.version)
    }

    open spec fn decodes_target(&self, text: Seq<char>, out: Result<S, MigrateError>) -> bool {
        decodes::<S>(text, out)
    }

    open spec fn migrates(&self, version: i64, text: Seq<char>, out: Result<S, MigrateError>) -> bool {
        if version == self.version {
            decodes::<S>(text, out)
        } else {
            exists|prev: Result<P::Target, MigrateError>| #[trigger]
                self.earlier.migrates(version, text, prev) && upgrades::<P::Target, S>(prev, out)
        }
    }

    open spec fn converts_from(&self, k: int, text: Seq<char>, out: Result<S, MigrateError>) -> bool {
        if k == self.earlier.versions().len() {
            decodes::<S>(text, out)
        } else {
            exists|prev: Result<P::Target, MigrateError>| #[trigger]
                self.earlier.converts_from(k, text, prev) && upgrades::<P::Target, S>(prev, out)
        }
    }

    fn target_version(&self) -> (v: i64) {
        self.version
    }

    fn knows(&self, version: i64) -> (b: bool) {
        let before = self.earlier.knows(version);
        proof {
            let earlier = self.earlier.versions();
            let all = self.versions();
            assert(all[earlier.len() as int] == self.version);
            if before {
                let i = choose|i: int| 0 <= i < earlier.len() && earlier[i] == version;
                assert(all[i] == version);
            }
            if all.contains(version) && version != self.version {
                let i = choose|i: int| 0 <= i < all.len() && all[i] == version;
                assert(earlier[i] == version);
            }
        }
        version == self.version || before
    }

    fn is_ordered(&self) -> (b: bool) {
        let newest_before = self.earlier.target_version();
        let before = self.earlier.is_ordered();
        proof {
            increasing_after_push(self.earlier.versions(), self.version);
        }
        before && newest_before < self.version
    }

    fn migrate_from_str(&self, version: i64, config_str: &str) -> (out: Result<S, MigrateError>) {
        if version == self.version {
            match S::from_toml(config_str) {
                Ok(v) => Ok(v),
                Err(e) => Err(MigrateError::Deserialize(e)),
            }
        } else {
            match self.earlier.migrate_from_str(version, config_str) {
                Ok(prev) => Ok(S::from(prev)),
                Err(e) => Err(e),
            }
        }
    }

    proof fn chain_is_not_empty(&self) {
    }

    proof fn newest_version_is_decoded_directly(&self, text: Seq<char>, out: Result<S, MigrateError>) {
    }

    proof fn unknown_version_is_refused(
        &self,
        version: i64,
        text: Seq<char>,
        out: Result<S, MigrateError>,
    ) {
        let earlier = self.earlier.versions();
        let all = self.versions();
        let refused = Err::<P::Target, MigrateError>(MigrateError::NoValidVersion);
        assert(all[earlier.len() as int] == self.version);
        assert(!earlier.contains(version)) by {
            if earlier.contains(version) {
                let i = choose|i: int| 0 <= i < earlier.len() && earlier[i] == version;
                assert(all[i] == version);
            }
        }
        assert forall|prev: Result<P::Target, MigrateError>|
            self.earlier.migrates(version, text, prev) <==> prev == refused by {
            self.earlier.unknown_version_is_refused(version, text, prev);
        }
        if out == Err::<S, MigrateError>(MigrateError::NoValidVersion) {
            assert(self.earlier.migrates(version, text, refused) && upgrades::<P::Target, S>(
                refused,
                out,
            ));
        }
    }

    proof fn migration_follows_the_chain(&self, k: int, text: Seq<char>, out: Result<S, MigrateError>) {
        let earlier = self.earlier.versions();
        let all = self.versions();
        self.earlier.chain_is_not_empty();
        increasing_after_push(earlier, self.version);
        if k < earlier.len() {
            assert(all[k] == earlier[k] && earlier[k] <= earlier.last());
            if self.migrates(all[k], text, out) {
                let prev = choose|prev: Result<P::Target, MigrateError>| #[trigger]
                    self.earlier.migrates(all[k], text, prev) && upgrades::<P::Target, S>(prev, out);
                self.earlier.migration_follows_the_chain(k, text, prev);
            }
            if self.converts_from(k, text, out) {
                let prev = choose|prev: Result<P::Target, MigrateError>| #[trigger]
                    self.earlier.converts_from(k, text, prev) && upgrades::<P::Target, S>(prev, out);
                self.earlier.migration_follows_the_chain(k, text, prev);
            }
        }
    }

    proof fn errors_of_the_chain(&self, version: i64, text: Seq<char>, out: Result<S, MigrateError>) {
        if version != self.version {
            let prev = choose|prev: Result<P::Target, MigrateError>| #[trigger]
                self.earlier.migrates(version, text, prev) && upgrades::<P::Target, S>(prev, out);
            self.earlier.errors_of_the_chain(version, text, prev);
            let earlier = self.earlier.versions();
            let all = self.versions();
            if all.contains(version) {
                let i = choose|i: int| 0 <= i < all.len() && all[i] == version;
                assert(earlier[i] == version);
            }
        }
    }
}

} // verus!
